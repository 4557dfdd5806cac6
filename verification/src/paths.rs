//! Unix path texts read component by component, as `std::path::Path` reads
//! them: repeated separators and `.` are dropped, except a leading `.`, which
//! is the current-directory component; a leading `/` is the root.
use vstd::prelude::*;

use crate::text::{chars_of, string_from_chars, string_of, concat3};

verus! {

/// One component of a path.
#[derive(Debug)]
pub enum PathComponent {
    RootDir,
    CurDir,
    ParentDir,
    Normal(String),
}

/// The model of a path component.
pub enum ComponentView {
    RootDir,
    CurDir,
    ParentDir,
    Normal(Seq<char>),
}

impl View for PathComponent {
    type V = ComponentView;

    open spec fn view(&self) -> ComponentView {
        match self {
            PathComponent::RootDir => ComponentView::RootDir,
            PathComponent::CurDir => ComponentView::CurDir,
            PathComponent::ParentDir => ComponentView::ParentDir,
            PathComponent::Normal(s) => ComponentView::Normal(s@),
        }
    }
}

/// The index of the first `/` in `s`, or its length.
pub open spec fn slash_index(s: Seq<char>) -> nat
    decreases s.len(),
{
    if s.len() == 0 || s[0] == '/' {
        0
    } else {
        1 + slash_index(s.skip(1))
    }
}

/// The pieces of `s` between slashes (an empty text is one empty piece).
pub open spec fn split_slash(s: Seq<char>) -> Seq<Seq<char>>
    decreases s.len(),
{
    if slash_index(s) < s.len() {
        seq![s.take(slash_index(s) as int)] + split_slash(s.skip(slash_index(s) as int + 1))
    } else {
        seq![s]
    }
}

pub open spec fn dot() -> Seq<char> {
    seq!['.']
}

pub open spec fn dot_dot() -> Seq<char> {
    seq!['.', '.']
}

/// The component of a piece after the first: none for an empty piece or `.`.
pub open spec fn piece_component(piece: Seq<char>) -> Option<ComponentView> {
    if piece.len() == 0 || piece == dot() {
        None
    } else if piece == dot_dot() {
        Some(ComponentView::ParentDir)
    } else {
        Some(ComponentView::Normal(piece))
    }
}

/// The components of a list of pieces.
pub open spec fn pieces_components(pieces: Seq<Seq<char>>) -> Seq<ComponentView>
    decreases pieces.len(),
{
    if pieces.len() == 0 {
        Seq::empty()
    } else {
        let rest = pieces_components(pieces.skip(1));
        match piece_component(pieces[0]) {
            Some(c) => seq![c] + rest,
            None => rest,
        }
    }
}

/// The components of a path text.
pub open spec fn components(s: Seq<char>) -> Seq<ComponentView> {
    if s.len() == 0 {
        Seq::empty()
    } else if s[0] == '/' {
        seq![ComponentView::RootDir] + pieces_components(split_slash(s.skip(1)))
    } else if split_slash(s)[0] == dot() {
        seq![ComponentView::CurDir] + pieces_components(split_slash(s).skip(1))
    } else {
        pieces_components(split_slash(s))
    }
}

proof fn lemma_slash_index(t: Seq<char>, n: int)
    requires
        0 <= n <= t.len(),
        forall|k: int| 0 <= k < n ==> t[k] != '/',
        n == t.len() || t[n] == '/',
    ensures
        slash_index(t) == n,
    decreases n,
{
    if n > 0 {
        assert forall|k: int| 0 <= k < n - 1 implies t.skip(1)[k] != '/' by {
            assert(t.skip(1)[k] == t[k + 1]);
        }
        if n - 1 < t.len() - 1 {
            assert(t.skip(1)[n - 1] == t[n]);
        }
        lemma_slash_index(t.skip(1), n - 1);
    }
}

/// The pieces of `s[from..]` between slashes, as `split_slash` states.
fn split_slash_exec(s: &Vec<char>, from: usize) -> (r: Vec<Vec<char>>)
    requires
        from <= s.len(),
    ensures
        r@.len() == split_slash(s@.skip(from as int)).len(),
        forall|i: int| 0 <= i < r@.len() ==> (#[trigger] r@[i])@ == split_slash(s@.skip(from as int))[i],
{
    let ghost full = s@.skip(from as int);
    let mut out: Vec<Vec<char>> = Vec::new();
    let ghost mut done: Seq<Seq<char>> = Seq::empty();
    let mut pos: usize = from;
    assert(s@.skip(pos as int) =~= full);
    assert(done + split_slash(s@.skip(pos as int)) =~= split_slash(full));
    loop
        invariant
            full == s@.skip(from as int),
            from <= pos <= s.len(),
            out@.len() == done.len(),
            forall|i: int| 0 <= i < out@.len() ==> (#[trigger] out@[i])@ == done[i],
            split_slash(full) == done + split_slash(s@.skip(pos as int)),
        decreases s.len() - pos,
    {
        let ghost t = s@.skip(pos as int);
        let mut e: usize = pos;
        while e < s.len() && s[e] != '/'
            invariant
                pos <= e <= s.len(),
                forall|k: int| pos <= k < e ==> s@[k] != '/',
            decreases s.len() - e,
        {
            e += 1;
        }
        proof {
            assert forall|k: int| 0 <= k < e - pos implies t[k] != '/' by {
                assert(t[k] == s@[pos + k]);
            }
            if e < s.len() {
                assert(t[e - pos] == s@[e as int]);
            }
            lemma_slash_index(t, e - pos);
        }
        let mut piece: Vec<char> = Vec::new();
        let mut k: usize = pos;
        while k < e
            invariant
                pos <= k <= e <= s.len(),
                piece@ == s@.subrange(pos as int, k as int),
            decreases e - k,
        {
            piece.push(s[k]);
            assert(s@.subrange(pos as int, k + 1) =~= s@.subrange(pos as int, k as int).push(
                s@[k as int],
            ));
            k += 1;
        }
        out.push(piece);
        if e == s.len() {
            proof {
                assert(piece@ =~= t);
                done = done.push(t);
                assert(split_slash(full) =~= done);
            }
            return out;
        }
        proof {
            assert(piece@ =~= t.take(e - pos));
            done = done.push(t.take(e - pos));
            assert(t.skip(e - pos + 1) =~= s@.skip(e + 1));
            assert(split_slash(full) =~= done + split_slash(s@.skip(e + 1)));
        }
        pos = e + 1;
    }
}

fn is_dot(piece: &Vec<char>) -> (r: bool)
    ensures
        r == (piece@ == dot()),
{
    let r = piece.len() == 1 && piece[0] == '.';
    proof {
        if piece@.len() == 1 && piece@[0] == '.' {
            assert(piece@ =~= dot());
        }
    }
    r
}

fn is_dot_dot(piece: &Vec<char>) -> (r: bool)
    ensures
        r == (piece@ == dot_dot()),
{
    let r = piece.len() == 2 && piece[0] == '.' && piece[1] == '.';
    proof {
        if piece@.len() == 2 && piece@[0] == '.' && piece@[1] == '.' {
            assert(piece@ =~= dot_dot());
        }
    }
    r
}

fn pieces_components_exec(pieces: &Vec<Vec<char>>, start: usize, out: &mut Vec<PathComponent>)
    requires
        start <= pieces.len(),
    ensures
        final(out)@.len() == old(out)@.len() + pieces_components(
            pieces@.map_values(|p: Vec<char>| p@).skip(start as int),
        ).len(),
        forall|i: int| 0 <= i < old(out)@.len() ==> (#[trigger] final(out)@[i]) == old(out)@[i],
        forall|i: int|
            0 <= i < pieces_components(pieces@.map_values(|p: Vec<char>| p@).skip(start as int)).len()
                ==> (#[trigger] final(out)@[old(out)@.len() + i])@ == pieces_components(
                pieces@.map_values(|p: Vec<char>| p@).skip(start as int),
            )[i],
    decreases pieces.len() - start,
{
    let ghost views = pieces@.map_values(|p: Vec<char>| p@);
    if start == pieces.len() {
        assert(views.skip(start as int).len() == 0);
        return;
    }
    let ghost before = out@;
    let ghost cur = views.skip(start as int);
    let ghost rest = pieces_components(views.skip(start + 1));
    let piece = &pieces[start];
    assert(cur[0] == piece@);
    assert(cur.skip(1) =~= views.skip(start + 1));
    assert(pieces_components(cur) == match piece_component(cur[0]) {
        Some(c) => seq![c] + rest,
        None => rest,
    });
    if piece.len() == 0 || is_dot(piece) {
        pieces_components_exec(pieces, start + 1, out);
    } else {
        let c = if is_dot_dot(piece) {
            PathComponent::ParentDir
        } else {
            PathComponent::Normal(string_from_chars(piece))
        };
        let ghost cv = c@;
        assert(piece_component(cur[0]) == Some(cv));
        out.push(c);
        let ghost mid = out@;
        pieces_components_exec(pieces, start + 1, out);
        proof {
            assert(mid.len() == before.len() + 1);
            assert forall|i: int| 0 <= i < before.len() implies (#[trigger] out@[i]) == before[i] by {
                assert(out@[i] == mid[i]);
            }
            assert forall|i: int| 0 <= i < pieces_components(cur).len() implies (#[trigger] out@[
                before.len() + i])@ == pieces_components(cur)[i] by {
                if i == 0 {
                    assert(out@[before.len() as int] == mid[before.len() as int]);
                } else {
                    assert(out@[mid.len() + (i - 1)]@ == rest[i - 1]);
                }
            }
        }
    }
}

/// The components of a path text, as `components` states.
pub fn path_components(path: &str) -> (r: Vec<PathComponent>)
    ensures
        r@.len() == components(path@).len(),
        forall|i: int| 0 <= i < r@.len() ==> (#[trigger] r@[i])@ == components(path@)[i],
{
    let s = chars_of(path);
    let mut out: Vec<PathComponent> = Vec::new();
    if s.len() == 0 {
        return out;
    }
    if s[0] == '/' {
        out.push(PathComponent::RootDir);
        let pieces = split_slash_exec(&s, 1);
        let ghost tail = pieces_components(split_slash(s@.skip(1)));
        proof {
            assert(pieces@.map_values(|p: Vec<char>| p@).skip(0) =~= split_slash(s@.skip(1)));
        }
        pieces_components_exec(&pieces, 0, &mut out);
        proof {
            assert(components(path@) == seq![ComponentView::RootDir] + tail);
            assert forall|i: int| 0 <= i < out@.len() implies (#[trigger] out@[i])@ == components(
                path@,
            )[i] by {
                if i > 0 {
                    assert(out@[1 + (i - 1)]@ == tail[i - 1]);
                }
            }
        }
        return out;
    }
    let pieces = split_slash_exec(&s, 0);
    assert(s@.skip(0) =~= s@);
    proof {
        assert(pieces@.map_values(|p: Vec<char>| p@) =~= split_slash(s@));
    }
    if is_dot(&pieces[0]) {
        let ghost tail = pieces_components(split_slash(s@).skip(1));
        out.push(PathComponent::CurDir);
        pieces_components_exec(&pieces, 1, &mut out);
        proof {
            assert(components(path@) == seq![ComponentView::CurDir] + tail);
            assert forall|i: int| 0 <= i < out@.len() implies (#[trigger] out@[i])@ == components(
                path@,
            )[i] by {
                if i > 0 {
                    assert(out@[1 + (i - 1)]@ == tail[i - 1]);
                }
            }
        }
    } else {
        pieces_components_exec(&pieces, 0, &mut out);
        proof {
            assert(split_slash(s@).skip(0) =~= split_slash(s@));
            assert forall|i: int| 0 <= i < out@.len() implies (#[trigger] out@[i])@ == components(
                path@,
            )[i] by {
                assert(out@[0 + i]@ == components(path@)[i]);
            }
        }
    }
    out
}

/// Whether the components of `base` begin the components of `candidate`, as
/// `Path::strip_prefix` tests.
pub open spec fn components_prefix(base: Seq<ComponentView>, candidate: Seq<ComponentView>) -> bool {
    base.len() <= candidate.len() && candidate.take(base.len() as int) == base
}

fn component_eq(a: &PathComponent, b: &PathComponent) -> (r: bool)
    ensures
        r == (a@ == b@),
{
    match (a, b) {
        (PathComponent::RootDir, PathComponent::RootDir) => true,
        (PathComponent::CurDir, PathComponent::CurDir) => true,
        (PathComponent::ParentDir, PathComponent::ParentDir) => true,
        (PathComponent::Normal(x), PathComponent::Normal(y)) => crate::text::str_eq(
            x.as_str(),
            y.as_str(),
        ),
        _ => false,
    }
}

/// Whether `candidate` lies under `base`, comparing whole components.
pub fn path_starts_with(candidate: &str, base: &str) -> (r: bool)
    ensures
        r == components_prefix(components(base@), components(candidate@)),
{
    let b = path_components(base);
    let c = path_components(candidate);
    if b.len() > c.len() {
        return false;
    }
    let mut i: usize = 0;
    while i < b.len()
        invariant
            0 <= i <= b.len() <= c.len(),
            b@.len() == components(base@).len(),
            c@.len() == components(candidate@).len(),
            forall|k: int| 0 <= k < b@.len() ==> (#[trigger] b@[k])@ == components(base@)[k],
            forall|k: int| 0 <= k < c@.len() ==> (#[trigger] c@[k])@ == components(candidate@)[k],
            forall|k: int| 0 <= k < i ==> components(base@)[k] == components(candidate@)[k],
        decreases b.len() - i,
    {
        if !component_eq(&b[i], &c[i]) {
            assert(components(candidate@).take(components(base@).len() as int)[i as int]
                != components(base@)[i as int]);
            return false;
        }
        i += 1;
    }
    assert(components(candidate@).take(components(base@).len() as int) =~= components(base@));
    true
}

/// The last component of a path when it is a normal one, as `Path::file_name` gives it.
pub open spec fn file_name(path: Seq<char>) -> Option<Seq<char>> {
    let cs = components(path);
    if cs.len() > 0 && cs.last() is Normal {
        Some(cs.last()->Normal_0)
    } else {
        None
    }
}

/// The file name of a path, as `file_name` states.
pub fn path_file_name(path: &str) -> (r: Option<String>)
    ensures
        match file_name(path@) {
            None => r is None,
            Some(n) => r matches Some(s) && s@ == n,
        },
{
    let cs = path_components(path);
    if cs.len() == 0 {
        return None;
    }
    match &cs[cs.len() - 1] {
        PathComponent::Normal(n) => Some(n.clone()),
        _ => None,
    }
}

/// `base` joined with a relative `name`, as `Path::join` joins them: a
/// separator is added unless `base` is empty or already ends with one.
pub open spec fn join(base: Seq<char>, name: Seq<char>) -> Seq<char> {
    if base.len() == 0 || base.last() == '/' {
        base + name
    } else {
        base + seq!['/'] + name
    }
}

/// Joins a relative, separator-free `name` onto `base`, as `join` states.
pub fn path_join(base: &str, name: &str) -> (r: String)
    requires
        name@.len() > 0,
        name@[0] != '/',
    ensures
        r@ == join(base@, name@),
{
    let chars = chars_of(base);
    if chars.len() == 0 || chars[chars.len() - 1] == '/' {
        crate::text::concat2(base, name)
    } else {
        proof {
            reveal_strlit("/");
        }
        assert("/"@ =~= seq!['/']);
        concat3(base, "/", name)
    }
}

} // verus!
