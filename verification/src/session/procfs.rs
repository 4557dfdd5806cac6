//! Readers for the Linux text files that failure evidence comes from:
//! `/proc/<pid>/status`, `/proc/meminfo`, `/proc/<pid>/cgroup` and a cgroup's
//! `memory.events`. Lines are split as `str::lines` splits them; fields are
//! separated by Unicode white space; numbers read as `u64::from_str` reads them.
use vstd::prelude::*;

use crate::domain::{LinuxOomEvidence, ProcessMemorySnapshot, SystemMemorySnapshot};
use crate::text::{chars_of, is_white, is_white_exec, string_from_chars};

verus! {

/// The index of the first `'\n'` in `s`, or its length when there is none.
pub open spec fn line_end(s: Seq<char>) -> nat
    decreases s.len(),
{
    if s.len() == 0 {
        0
    } else if s[0] == '\n' {
        0
    } else {
        1 + line_end(s.skip(1))
    }
}

/// The first line of `s`, without its line ending (`"\n"` or `"\r\n"`).
pub open spec fn first_line(s: Seq<char>) -> Seq<char> {
    let e = line_end(s) as int;
    if e < s.len() && e > 0 && s[e - 1] == '\r' {
        s.take(e - 1)
    } else {
        s.take(e)
    }
}

/// The lines of `s`, as `str::lines` yields them: a final line ending adds no empty line.
pub open spec fn lines(s: Seq<char>) -> Seq<Seq<char>>
    decreases s.len(),
{
    if s.len() == 0 {
        Seq::empty()
    } else if line_end(s) < s.len() {
        seq![first_line(s)] + lines(s.skip(line_end(s) as int + 1))
    } else {
        seq![first_line(s)]
    }
}

proof fn lemma_line_end(t: Seq<char>, n: int)
    requires
        0 <= n <= t.len(),
        forall|k: int| 0 <= k < n ==> t[k] != '\n',
        n == t.len() || t[n] == '\n',
    ensures
        line_end(t) == n,
    decreases n,
{
    if n > 0 {
        assert(t.skip(1).len() == t.len() - 1);
        assert forall|k: int| 0 <= k < n - 1 implies t.skip(1)[k] != '\n' by {
            assert(t.skip(1)[k] == t[k + 1]);
        }
        if n - 1 < t.len() - 1 {
            assert(t.skip(1)[n - 1] == t[n]);
        }
        lemma_line_end(t.skip(1), n - 1);
    }
}

/// The lines of `s`, as `lines` states.
pub fn split_lines(s: &str) -> (r: Vec<Vec<char>>)
    ensures
        r@.len() == lines(s@).len(),
        forall|i: int| 0 <= i < r@.len() ==> (#[trigger] r@[i])@ == lines(s@)[i],
{
    let chars = chars_of(s);
    let ghost full = s@;
    let mut out: Vec<Vec<char>> = Vec::new();
    let ghost mut done: Seq<Seq<char>> = Seq::empty();
    let mut pos: usize = 0;
    assert(full.skip(0) =~= full);
    assert(done + lines(full.skip(0)) =~= lines(full));
    while pos < chars.len()
        invariant
            full == s@,
            chars@ == full,
            0 <= pos <= chars.len(),
            out@.len() == done.len(),
            forall|i: int| 0 <= i < out@.len() ==> (#[trigger] out@[i])@ == done[i],
            lines(full) == done + lines(full.skip(pos as int)),
        decreases chars.len() - pos,
    {
        let ghost t = full.skip(pos as int);
        let mut e: usize = pos;
        while e < chars.len() && chars[e] != '\n'
            invariant
                chars@ == full,
                pos <= e <= chars.len(),
                forall|k: int| pos <= k < e ==> chars@[k] != '\n',
            decreases chars.len() - e,
        {
            e += 1;
        }
        proof {
            assert forall|k: int| 0 <= k < e - pos implies t[k] != '\n' by {
                assert(t[k] == full[pos + k]);
            }
            if e < chars.len() {
                assert(t[e - pos] == full[e as int]);
            }
            lemma_line_end(t, e - pos);
        }
        let stop: usize = if e < chars.len() && e > pos && chars[e - 1] == '\r' {
            e - 1
        } else {
            e
        };
        let mut line: Vec<char> = Vec::new();
        let mut k: usize = pos;
        while k < stop
            invariant
                chars@ == full,
                pos <= k <= stop <= chars.len(),
                line@ == full.subrange(pos as int, k as int),
            decreases stop - k,
        {
            line.push(chars[k]);
            assert(full.subrange(pos as int, k + 1) =~= full.subrange(pos as int, k as int).push(
                full[k as int],
            ));
            k += 1;
        }
        proof {
            if e < chars.len() && e > pos && chars@[e - 1] == '\r' {
                assert(t[e - pos - 1] == full[e - 1]);
            }
            assert(line@ =~= first_line(t));
        }
        out.push(line);
        proof {
            done = done.push(first_line(t));
        }
        if e == chars.len() {
            proof {
                assert(lines(t) == seq![first_line(t)]);
                assert(lines(full) == done);
            }
            return out;
        }
        proof {
            assert(t.skip(e - pos + 1) =~= full.skip(e + 1));
            assert(lines(t) == seq![first_line(t)] + lines(full.skip(e + 1)));
            assert(lines(full) =~= done + lines(full.skip(e + 1)));
        }
        pos = e + 1;
    }
    proof {
        assert(full.skip(pos as int).len() == 0);
        assert(lines(full) =~= done);
    }
    out
}

/// The number of white-space characters at the start of `s`.
pub open spec fn white_prefix(s: Seq<char>) -> nat
    decreases s.len(),
{
    if s.len() > 0 && is_white(s[0]) {
        1 + white_prefix(s.skip(1))
    } else {
        0
    }
}

/// The number of non-white-space characters at the start of `s`.
pub open spec fn token_prefix(s: Seq<char>) -> nat
    decreases s.len(),
{
    if s.len() > 0 && !is_white(s[0]) {
        1 + token_prefix(s.skip(1))
    } else {
        0
    }
}

/// The first white-space separated field of `s`, as `split_whitespace().next()` gives it.
pub open spec fn first_token(s: Seq<char>) -> Option<Seq<char>> {
    let t = s.skip(white_prefix(s) as int);
    if token_prefix(t) == 0 {
        None
    } else {
        Some(t.take(token_prefix(t) as int))
    }
}

/// What follows the first field of `s`.
pub open spec fn after_first_token(s: Seq<char>) -> Seq<char> {
    let t = s.skip(white_prefix(s) as int);
    t.skip(token_prefix(t) as int)
}

proof fn lemma_white_prefix(t: Seq<char>, n: int)
    requires
        0 <= n <= t.len(),
        forall|k: int| 0 <= k < n ==> is_white(#[trigger] t[k]),
        n == t.len() || !is_white(t[n]),
    ensures
        white_prefix(t) == n,
    decreases n,
{
    if n > 0 {
        assert forall|k: int| 0 <= k < n - 1 implies is_white(#[trigger] t.skip(1)[k]) by {
            assert(t.skip(1)[k] == t[k + 1]);
        }
        if n - 1 < t.len() - 1 {
            assert(t.skip(1)[n - 1] == t[n]);
        }
        lemma_white_prefix(t.skip(1), n - 1);
    }
}

proof fn lemma_token_prefix(t: Seq<char>, n: int)
    requires
        0 <= n <= t.len(),
        forall|k: int| 0 <= k < n ==> !is_white(#[trigger] t[k]),
        n == t.len() || is_white(t[n]),
    ensures
        token_prefix(t) == n,
    decreases n,
{
    if n > 0 {
        assert forall|k: int| 0 <= k < n - 1 implies !is_white(#[trigger] t.skip(1)[k]) by {
            assert(t.skip(1)[k] == t[k + 1]);
        }
        if n - 1 < t.len() - 1 {
            assert(t.skip(1)[n - 1] == t[n]);
        }
        lemma_token_prefix(t.skip(1), n - 1);
    }
}

/// The first field of `s[from..]`, as start and end indices into `s`, and the
/// index just after it; `None` when no field is left.
fn next_token(s: &Vec<char>, from: usize) -> (r: Option<(usize, usize)>)
    requires
        from <= s.len(),
    ensures
        match first_token(s@.skip(from as int)) {
            None => r is None,
            Some(tok) => r matches Some((a, b)) && from <= a < b <= s.len() && s@.subrange(
                a as int,
                b as int,
            ) == tok && s@.skip(b as int) == after_first_token(s@.skip(from as int)),
        },
{
    let ghost t = s@.skip(from as int);
    let mut a: usize = from;
    while a < s.len() && is_white_exec(s[a])
        invariant
            from <= a <= s.len(),
            forall|k: int| from <= k < a ==> is_white(#[trigger] s@[k]),
        decreases s.len() - a,
    {
        a += 1;
    }
    proof {
        assert forall|k: int| 0 <= k < a - from implies is_white(#[trigger] t[k]) by {
            assert(t[k] == s@[from + k]);
        }
        if a < s.len() {
            assert(t[a - from] == s@[a as int]);
        }
        lemma_white_prefix(t, a - from);
    }
    let ghost u = t.skip(a - from);
    let mut b: usize = a;
    while b < s.len() && !is_white_exec(s[b])
        invariant
            a <= b <= s.len(),
            forall|k: int| a <= k < b ==> !is_white(#[trigger] s@[k]),
        decreases s.len() - b,
    {
        b += 1;
    }
    proof {
        assert(u =~= s@.skip(a as int));
        assert forall|k: int| 0 <= k < b - a implies !is_white(#[trigger] u[k]) by {
            assert(u[k] == s@[a + k]);
        }
        if b < s.len() {
            assert(u[b - a] == s@[b as int]);
        }
        lemma_token_prefix(u, b - a);
    }
    if b == a {
        return None;
    }
    proof {
        assert(s@.subrange(a as int, b as int) =~= u.take(b - a));
        assert(s@.skip(b as int) =~= u.skip(b - a));
    }
    Some((a, b))
}

/// The value of an ASCII decimal digit.
pub open spec fn digit_value(c: char) -> nat {
    (c as nat - '0' as nat) as nat
}

pub open spec fn is_digit(c: char) -> bool {
    '0' <= c && c <= '9'
}

/// The number that a string of decimal digits denotes.
pub open spec fn digits_value(ds: Seq<char>) -> nat
    decreases ds.len(),
{
    if ds.len() == 0 {
        0
    } else {
        digits_value(ds.drop_last()) * 10 + digit_value(ds.last())
    }
}

/// What `u64::from_str` answers: an optional `+`, then one or more decimal
/// digits denoting a value that fits in a `u64`.
pub open spec fn parse_u64(tok: Seq<char>) -> Option<u64> {
    parse_digits(if tok.len() > 0 && tok[0] == '+' {
        tok.skip(1)
    } else {
        tok
    })
}

/// One or more decimal digits denoting a value that fits in a `u64`.
pub open spec fn parse_digits(ds: Seq<char>) -> Option<u64> {
    if ds.len() > 0 && (forall|i: int| 0 <= i < ds.len() ==> is_digit(#[trigger] ds[i]))
        && digits_value(ds) <= u64::MAX {
        Some(digits_value(ds) as u64)
    } else {
        None
    }
}

/// Reads `s[a..b]` as `parse_u64` states.
fn parse_u64_exec(s: &Vec<char>, a: usize, b: usize) -> (r: Option<u64>)
    requires
        a <= b <= s.len(),
    ensures
        r == parse_u64(s@.subrange(a as int, b as int)),
{
    let ghost tok = s@.subrange(a as int, b as int);
    let start: usize = if a < b && s[a] == '+' {
        a + 1
    } else {
        a
    };
    let ghost ds = s@.subrange(start as int, b as int);
    proof {
        if a < b && s@[a as int] == '+' {
            assert(ds =~= tok.skip(1));
        } else {
            assert(ds =~= tok);
        }
    }
    if start == b {
        return None;
    }
    let mut value: u64 = 0;
    let mut i: usize = start;
    while i < b
        invariant
            start < b,
            start <= i <= b <= s.len(),
            ds == s@.subrange(start as int, b as int),
            parse_u64(tok) == parse_digits(ds),
            tok == s@.subrange(a as int, b as int),
            value as nat == digits_value(s@.subrange(start as int, i as int)),
            forall|k: int| start <= k < i ==> is_digit(#[trigger] s@[k]),
        decreases b - i,
    {
        let c = s[i];
        if !('0' <= c && c <= '9') {
            assert(!is_digit(ds[i - start]));
            return None;
        }
        let d: u64 = (c as u32 - '0' as u32) as u64;
        proof {
            let pre = s@.subrange(start as int, i as int);
            let next = s@.subrange(start as int, i + 1);
            assert(next.drop_last() =~= pre);
            assert(next.last() == c);
        }
        if value > (18446744073709551615u64 - d) / 10 {
            // The digits read so far, with any that follow, exceed u64::MAX.
            proof {
                assert(ds.take(i - start) =~= s@.subrange(start as int, i as int));
                assert(ds[i - start] == c);
                lemma_digits_overflow(ds, (i - start) as int, value as nat, d as nat);
            }
            return None;
        }
        value = value * 10 + d;
        i += 1;
    }
    proof {
        assert forall|k: int| 0 <= k < ds.len() implies is_digit(#[trigger] ds[k]) by {
            assert(ds[k] == s@[start + k]);
        }
    }
    Some(value)
}

proof fn lemma_digits_value_prefix_monotone(ds: Seq<char>, n: int)
    requires
        0 <= n <= ds.len(),
        forall|i: int| 0 <= i < ds.len() ==> is_digit(#[trigger] ds[i]),
    ensures
        digits_value(ds) >= digits_value(ds.take(n)),
    decreases ds.len() - n,
{
    if n < ds.len() {
        let longer = ds.take(n + 1);
        assert(longer.drop_last() =~= ds.take(n));
        assert(digits_value(longer) == digits_value(ds.take(n)) * 10 + digit_value(longer.last()));
        lemma_digits_value_prefix_monotone(ds, n + 1);
        if n + 1 == ds.len() {
            assert(ds.take(n + 1) =~= ds);
        }
    } else {
        assert(ds.take(n) =~= ds);
    }
}

proof fn lemma_digits_overflow(ds: Seq<char>, n: int, value: nat, d: nat)
    requires
        0 <= n < ds.len(),
        value == digits_value(ds.take(n)),
        digit_value(ds[n]) == d,
        d <= 9,
        value > (18446744073709551615 - d) / 10,
    ensures
        !(forall|i: int| 0 <= i < ds.len() ==> is_digit(#[trigger] ds[i])) || digits_value(ds)
            > u64::MAX,
{
    if forall|i: int| 0 <= i < ds.len() ==> is_digit(#[trigger] ds[i]) {
        let longer = ds.take(n + 1);
        assert(longer.drop_last() =~= ds.take(n));
        assert(longer.last() == ds[n]);
        assert(value * 10 + d > 18446744073709551615) by (nonlinear_arith)
            requires
                value > (18446744073709551615 - d) / 10,
                d <= 9,
        ;
        lemma_digits_value_prefix_monotone(ds, n + 1);
    }
}

/// The first `Some` that `f` gives for a line of `ls`, in order.
pub open spec fn first_some<A>(ls: Seq<Seq<char>>, f: spec_fn(Seq<char>) -> Option<A>) -> Option<A>
    decreases ls.len(),
{
    if ls.len() == 0 {
        None
    } else {
        match f(ls[0]) {
            Some(v) => Some(v),
            None => first_some(ls.skip(1), f),
        }
    }
}

proof fn lemma_first_some_step<A>(ls: Seq<Seq<char>>, f: spec_fn(Seq<char>) -> Option<A>, i: int)
    requires
        0 <= i < ls.len(),
    ensures
        first_some(ls.skip(i), f) == match f(ls[i]) {
            Some(v) => Some(v),
            None => first_some(ls.skip(i + 1), f),
        },
{
    assert(ls.skip(i).skip(1) =~= ls.skip(i + 1));
}

/// The byte count of a `<field> <n> kB` line: `n` KiB when `line` starts with
/// `field`, the next field is a `u64` and `n * 1024` fits in a `u64`.
pub open spec fn kib_value(line: Seq<char>, field: Seq<char>) -> Option<u64> {
    if field.len() <= line.len() && line.take(field.len() as int) == field {
        match first_token(line.skip(field.len() as int)) {
            Some(tok) => match parse_u64(tok) {
                Some(n) => if n * 1024 <= u64::MAX {
                    Some((n * 1024) as u64)
                } else {
                    None
                },
                None => None,
            },
            None => None,
        }
    } else {
        None
    }
}

/// The first value that a line of `contents` gives for `field`, in bytes.
pub open spec fn kib_field(contents: Seq<char>, field: Seq<char>) -> Option<u64> {
    first_some(lines(contents), |line: Seq<char>| kib_value(line, field))
}

fn starts_with_chars(line: &Vec<char>, prefix: &Vec<char>) -> (r: bool)
    ensures
        r == (prefix@.len() <= line@.len() && line@.take(prefix@.len() as int) == prefix@),
{
    if prefix.len() > line.len() {
        return false;
    }
    let mut i: usize = 0;
    while i < prefix.len()
        invariant
            0 <= i <= prefix.len() <= line.len(),
            forall|k: int| 0 <= k < i ==> line@[k] == prefix@[k],
        decreases prefix.len() - i,
    {
        if line[i] != prefix[i] {
            assert(line@.take(prefix@.len() as int)[i as int] != prefix@[i as int]);
            return false;
        }
        i += 1;
    }
    assert(line@.take(prefix@.len() as int) =~= prefix@);
    true
}

fn kib_value_exec(line: &Vec<char>, field: &Vec<char>) -> (r: Option<u64>)
    ensures
        r == kib_value(line@, field@),
{
    if !starts_with_chars(line, field) {
        return None;
    }
    match next_token(line, field.len()) {
        None => None,
        Some((a, b)) => match parse_u64_exec(line, a, b) {
            Some(n) => {
                if n > 18014398509481983 {
                    None
                } else {
                    Some(n * 1024)
                }
            },
            None => None,
        },
    }
}

/// The first `<field> <n> kB` line of `contents`, read as `n * 1024` bytes.
pub fn parse_kib_field(contents: &str, field: &str) -> (r: Option<u64>)
    ensures
        r == kib_field(contents@, field@),
{
    let ls = split_lines(contents);
    let f = chars_of(field);
    let ghost spec_f = |line: Seq<char>| kib_value(line, field@);
    let ghost all = lines(contents@);
    let mut i: usize = 0;
    assert(all.skip(0) =~= all);
    while i < ls.len()
        invariant
            0 <= i <= ls.len(),
            f@ == field@,
            ls@.len() == all.len(),
            forall|k: int| 0 <= k < ls@.len() ==> (#[trigger] ls@[k])@ == all[k],
            spec_f == (|line: Seq<char>| kib_value(line, field@)),
            kib_field(contents@, field@) == first_some(all.skip(i as int), spec_f),
        decreases ls.len() - i,
    {
        proof {
            lemma_first_some_step(all, spec_f, i as int);
        }
        let v = kib_value_exec(&ls[i], &f);
        if v.is_some() {
            return v;
        }
        i += 1;
    }
    assert(all.skip(i as int).len() == 0);
    None
}

/// The value of a `<key> <n>` line: `n` when the first field is `key` and the second a `u64`.
pub open spec fn counter_value(line: Seq<char>, key: Seq<char>) -> Option<u64> {
    match first_token(line) {
        Some(first) => if first == key {
            match first_token(after_first_token(line)) {
                Some(second) => parse_u64(second),
                None => None,
            }
        } else {
            None
        },
        None => None,
    }
}

/// The first value that a line of `contents` gives for `key`.
pub open spec fn counter_field(contents: Seq<char>, key: Seq<char>) -> Option<u64> {
    first_some(lines(contents), |line: Seq<char>| counter_value(line, key))
}

fn chars_range_eq(s: &Vec<char>, a: usize, b: usize, other: &Vec<char>) -> (r: bool)
    requires
        a <= b <= s.len(),
    ensures
        r == (s@.subrange(a as int, b as int) == other@),
{
    if b - a != other.len() {
        return false;
    }
    let mut i: usize = 0;
    while i < other.len()
        invariant
            0 <= i <= other.len(),
            b - a == other.len(),
            a <= b <= s.len(),
            forall|k: int| 0 <= k < i ==> s@[a + k] == other@[k],
        decreases other.len() - i,
    {
        if s[a + i] != other[i] {
            assert(s@.subrange(a as int, b as int)[i as int] != other@[i as int]);
            return false;
        }
        i += 1;
    }
    assert(s@.subrange(a as int, b as int) =~= other@);
    true
}

fn counter_value_exec(line: &Vec<char>, key: &Vec<char>) -> (r: Option<u64>)
    ensures
        r == counter_value(line@, key@),
{
    assert(line@.skip(0) =~= line@);
    match next_token(line, 0) {
        None => None,
        Some((a, b)) => {
            if !chars_range_eq(line, a, b, key) {
                return None;
            }
            match next_token(line, b) {
                None => None,
                Some((c, d)) => parse_u64_exec(line, c, d),
            }
        },
    }
}

/// The counter `key` of a cgroup `memory.events` text.
pub fn parse_cgroup_counter(contents: &str, key: &str) -> (r: Option<u64>)
    ensures
        r == counter_field(contents@, key@),
{
    let ls = split_lines(contents);
    let k = chars_of(key);
    let ghost spec_f = |line: Seq<char>| counter_value(line, key@);
    let ghost all = lines(contents@);
    let mut i: usize = 0;
    assert(all.skip(0) =~= all);
    while i < ls.len()
        invariant
            0 <= i <= ls.len(),
            k@ == key@,
            ls@.len() == all.len(),
            forall|j: int| 0 <= j < ls@.len() ==> (#[trigger] ls@[j])@ == all[j],
            spec_f == (|line: Seq<char>| counter_value(line, key@)),
            counter_field(contents@, key@) == first_some(all.skip(i as int), spec_f),
        decreases ls.len() - i,
    {
        proof {
            lemma_first_some_step(all, spec_f, i as int);
        }
        let v = counter_value_exec(&ls[i], &k);
        if v.is_some() {
            return v;
        }
        i += 1;
    }
    assert(all.skip(i as int).len() == 0);
    None
}

/// The number of white-space characters at the end of `s`.
pub open spec fn white_suffix(s: Seq<char>) -> nat
    decreases s.len(),
{
    if s.len() > 0 && is_white(s.last()) {
        1 + white_suffix(s.drop_last())
    } else {
        0
    }
}

/// `s` without leading and trailing white space, as `str::trim` gives it.
pub open spec fn trim(s: Seq<char>) -> Seq<char> {
    let t = s.skip(white_prefix(s) as int);
    t.take(t.len() - white_suffix(t))
}

/// The cgroup v2 path of a `0::<path>` line, when it is not blank.
pub open spec fn cgroup_v2_value(line: Seq<char>) -> Option<Seq<char>> {
    let prefix = seq!['0', ':', ':'];
    if line.len() >= 3 && line.take(3) == prefix && trim(line.skip(3)).len() > 0 {
        Some(trim(line.skip(3)))
    } else {
        None
    }
}

/// The cgroup v2 path that a `/proc/<pid>/cgroup` text names.
pub open spec fn cgroup_v2_path(contents: Seq<char>) -> Option<Seq<char>> {
    first_some(lines(contents), |line: Seq<char>| cgroup_v2_value(line))
}

proof fn lemma_white_suffix(t: Seq<char>, n: int)
    requires
        0 <= n <= t.len(),
        forall|k: int| t.len() - n <= k < t.len() ==> is_white(#[trigger] t[k]),
        n == t.len() || !is_white(t[t.len() - n - 1]),
    ensures
        white_suffix(t) == n,
    decreases n,
{
    if n > 0 {
        let d = t.drop_last();
        assert forall|k: int| d.len() - (n - 1) <= k < d.len() implies is_white(#[trigger] d[k]) by {
            assert(d[k] == t[k]);
        }
        if n - 1 < d.len() {
            assert(d[d.len() - (n - 1) - 1] == t[t.len() - n - 1]);
        }
        lemma_white_suffix(d, n - 1);
    }
}

fn cgroup_v2_value_exec(line: &Vec<char>) -> (r: Option<String>)
    ensures
        match cgroup_v2_value(line@) {
            None => r is None,
            Some(p) => r matches Some(s) && s@ == p,
        },
{
    let ghost prefix = seq!['0', ':', ':'];
    if !(line.len() >= 3 && line[0] == '0' && line[1] == ':' && line[2] == ':') {
        proof {
            if line@.len() >= 3 && line@.take(3) == prefix {
                assert(line@[0] == line@.take(3)[0]);
                assert(line@[1] == line@.take(3)[1]);
                assert(line@[2] == line@.take(3)[2]);
            }
        }
        return None;
    }
    assert(line@.take(3) =~= prefix);
    let ghost rest = line@.skip(3);
    let mut a: usize = 3;
    while a < line.len() && is_white_exec(line[a])
        invariant
            3 <= a <= line.len(),
            forall|k: int| 3 <= k < a ==> is_white(#[trigger] line@[k]),
        decreases line.len() - a,
    {
        a += 1;
    }
    proof {
        assert forall|k: int| 0 <= k < a - 3 implies is_white(#[trigger] rest[k]) by {
            assert(rest[k] == line@[3 + k]);
        }
        if a < line.len() {
            assert(rest[a - 3] == line@[a as int]);
        }
        lemma_white_prefix(rest, a - 3);
    }
    let ghost t = rest.skip(a - 3);
    let mut b: usize = line.len();
    while b > a && is_white_exec(line[b - 1])
        invariant
            a <= b <= line.len(),
            forall|k: int| b <= k < line.len() ==> is_white(#[trigger] line@[k]),
        decreases b - a,
    {
        b -= 1;
    }
    proof {
        assert(t =~= line@.skip(a as int));
        assert forall|k: int| t.len() - (line.len() - b) <= k < t.len() implies is_white(
            #[trigger] t[k],
        ) by {
            assert(t[k] == line@[a + k]);
        }
        if line.len() - b < t.len() {
            assert(t[t.len() - (line.len() - b) - 1] == line@[b - 1]);
        }
        lemma_white_suffix(t, line.len() - b);
        assert(line@.subrange(a as int, b as int) =~= trim(rest));
    }
    if b == a {
        return None;
    }
    let mut out: Vec<char> = Vec::new();
    let mut i: usize = a;
    while i < b
        invariant
            a <= i <= b <= line.len(),
            out@ == line@.subrange(a as int, i as int),
        decreases b - i,
    {
        out.push(line[i]);
        assert(line@.subrange(a as int, i + 1) =~= line@.subrange(a as int, i as int).push(
            line@[i as int],
        ));
        i += 1;
    }
    Some(string_from_chars(&out))
}

/// The cgroup v2 path named by a `/proc/<pid>/cgroup` text.
pub fn cgroup_v2_path_from(contents: &str) -> (r: Option<String>)
    ensures
        match cgroup_v2_path(contents@) {
            None => r is None,
            Some(p) => r matches Some(s) && s@ == p,
        },
{
    let ls = split_lines(contents);
    let ghost spec_f = |line: Seq<char>| cgroup_v2_value(line);
    let ghost all = lines(contents@);
    let mut i: usize = 0;
    assert(all.skip(0) =~= all);
    while i < ls.len()
        invariant
            0 <= i <= ls.len(),
            ls@.len() == all.len(),
            forall|j: int| 0 <= j < ls@.len() ==> (#[trigger] ls@[j])@ == all[j],
            spec_f == (|line: Seq<char>| cgroup_v2_value(line)),
            cgroup_v2_path(contents@) == first_some(all.skip(i as int), spec_f),
        decreases ls.len() - i,
    {
        proof {
            lemma_first_some_step(all, spec_f, i as int);
        }
        let v = cgroup_v2_value_exec(&ls[i]);
        if v.is_some() {
            return v;
        }
        i += 1;
    }
    assert(all.skip(i as int).len() == 0);
    None
}

/// The memory figures of a `/proc/<pid>/status` text; `None` when it names none of them.
pub fn process_memory_snapshot(status: &str) -> (r: Option<ProcessMemorySnapshot>)
    ensures
        ({
            let rss = kib_field(status@, "VmRSS:"@);
            let virt = kib_field(status@, "VmSize:"@);
            let swap = kib_field(status@, "VmSwap:"@);
            if rss is None && virt is None && swap is None {
                r is None
            } else {
                r == Some(
                    ProcessMemorySnapshot { rss_bytes: rss, virtual_bytes: virt, swap_bytes: swap },
                )
            }
        }),
{
    let snapshot = ProcessMemorySnapshot {
        rss_bytes: parse_kib_field(status, "VmRSS:"),
        virtual_bytes: parse_kib_field(status, "VmSize:"),
        swap_bytes: parse_kib_field(status, "VmSwap:"),
    };
    if snapshot.rss_bytes.is_none() && snapshot.virtual_bytes.is_none()
        && snapshot.swap_bytes.is_none() {
        None
    } else {
        Some(snapshot)
    }
}

/// The memory figures of a `/proc/meminfo` text; `None` when it names none of them.
pub fn system_memory_snapshot(meminfo: &str) -> (r: Option<SystemMemorySnapshot>)
    ensures
        ({
            let total = kib_field(meminfo@, "MemTotal:"@);
            let available = kib_field(meminfo@, "MemAvailable:"@);
            let swap_total = kib_field(meminfo@, "SwapTotal:"@);
            let swap_free = kib_field(meminfo@, "SwapFree:"@);
            if total is None && available is None && swap_total is None && swap_free is None {
                r is None
            } else {
                r == Some(
                    SystemMemorySnapshot {
                        total_bytes: total,
                        available_bytes: available,
                        swap_total_bytes: swap_total,
                        swap_free_bytes: swap_free,
                    },
                )
            }
        }),
{
    let snapshot = SystemMemorySnapshot {
        total_bytes: parse_kib_field(meminfo, "MemTotal:"),
        available_bytes: parse_kib_field(meminfo, "MemAvailable:"),
        swap_total_bytes: parse_kib_field(meminfo, "SwapTotal:"),
        swap_free_bytes: parse_kib_field(meminfo, "SwapFree:"),
    };
    if snapshot.total_bytes.is_none() && snapshot.available_bytes.is_none()
        && snapshot.swap_total_bytes.is_none() && snapshot.swap_free_bytes.is_none() {
        None
    } else {
        Some(snapshot)
    }
}

/// The count of leading `/` characters of `s`.
pub open spec fn slash_prefix(s: Seq<char>) -> nat
    decreases s.len(),
{
    if s.len() > 0 && s[0] == '/' {
        1 + slash_prefix(s.skip(1))
    } else {
        0
    }
}

/// Where the cgroup v2 filesystem keeps the `memory.events` file of a cgroup:
/// the cgroup path, leading separators dropped, under `/sys/fs/cgroup`.
pub open spec fn cgroup_events_path(cgroup_path: Seq<char>) -> Seq<char> {
    let relative = cgroup_path.skip(slash_prefix(cgroup_path) as int);
    if relative.len() == 0 {
        "/sys/fs/cgroup/memory.events"@
    } else {
        crate::paths::join(crate::paths::join("/sys/fs/cgroup"@, relative), "memory.events"@)
    }
}

/// The `memory.events` file of a cgroup, as `cgroup_events_path` states.
pub fn cgroup_events_file(cgroup_path: &str) -> (r: String)
    ensures
        r@ == cgroup_events_path(cgroup_path@),
{
    let chars = chars_of(cgroup_path);
    let mut i: usize = 0;
    assert(cgroup_path@.skip(0) =~= cgroup_path@);
    while i < chars.len() && chars[i] == '/'
        invariant
            chars@ == cgroup_path@,
            i <= chars.len(),
            slash_prefix(cgroup_path@) == i + slash_prefix(cgroup_path@.skip(i as int)),
        decreases chars.len() - i,
    {
        assert(cgroup_path@.skip(i as int).skip(1) =~= cgroup_path@.skip(i + 1));
        i += 1;
    }
    proof {
        if i < chars.len() {
            assert(cgroup_path@.skip(i as int)[0] == chars@[i as int]);
        }
        assert(slash_prefix(cgroup_path@.skip(i as int)) == 0);
        reveal_strlit("/sys/fs/cgroup/memory.events");
        reveal_strlit("/sys/fs/cgroup");
        reveal_strlit("memory.events");
    }
    let relative = crate::text::substring(&chars, i, chars.len());
    assert(relative@ =~= cgroup_path@.skip(slash_prefix(cgroup_path@) as int));
    if i == chars.len() {
        return crate::text::string_of("/sys/fs/cgroup/memory.events");
    }
    let dir = crate::paths::path_join("/sys/fs/cgroup", relative.as_str());
    crate::paths::path_join(dir.as_str(), "memory.events")
}

/// The OOM counters of a cgroup from the text of its `memory.events` file;
/// `None` unless both the `oom` and the `oom_kill` counter are readable.
pub fn linux_oom_evidence(cgroup_path: String, events: &str) -> (r: Option<LinuxOomEvidence>)
    ensures
        match (counter_field(events@, "oom"@), counter_field(events@, "oom_kill"@)) {
            (Some(a), Some(b)) => r matches Some(e) && e.cgroup_path == cgroup_path && e.oom_count == a
                && e.oom_kill_count == b && e.baseline_oom_count is None && e.baseline_oom_kill_count is None
                && e.oom_delta is None && e.oom_kill_delta is None,
            _ => r is None,
        },
{
    let oom = match parse_cgroup_counter(events, "oom") {
        Some(v) => v,
        None => {
            return None;
        },
    };
    let oom_kill = match parse_cgroup_counter(events, "oom_kill") {
        Some(v) => v,
        None => {
            return None;
        },
    };
    Some(LinuxOomEvidence {
        cgroup_path,
        oom_count: oom,
        oom_kill_count: oom_kill,
        baseline_oom_count: None,
        baseline_oom_kill_count: None,
        oom_delta: None,
        oom_kill_delta: None,
    })
}

} // verus!
