//! Identifiers of the domain objects: 128-bit UUIDs, written on the wire in
//! their lowercase hyphenated form.
use vstd::prelude::*;

use crate::text::push_char;

verus! {

/// The lowercase hexadecimal digit for `d` (0 to 15).
pub open spec fn hex_digit(d: nat) -> char {
    if d < 10 {
        crate::text::digit_char(d)
    } else if d == 10 {
        'a'
    } else if d == 11 {
        'b'
    } else if d == 12 {
        'c'
    } else if d == 13 {
        'd'
    } else if d == 14 {
        'e'
    } else {
        'f'
    }
}

/// The last `count` hexadecimal digits of `v`, most significant first.
pub open spec fn hex_digits(v: nat, count: nat) -> Seq<char>
    decreases count,
{
    if count == 0 {
        Seq::empty()
    } else {
        hex_digits(v / 16, (count - 1) as nat).push(hex_digit(v % 16))
    }
}

/// The hyphenated form of a UUID: its 32 hex digits grouped 8-4-4-4-12.
pub open spec fn uuid_text(v: u128) -> Seq<char> {
    let h = hex_digits(v as nat, 32);
    h.subrange(0, 8) + seq!['-'] + h.subrange(8, 12) + seq!['-'] + h.subrange(12, 16) + seq!['-']
        + h.subrange(16, 20) + seq!['-'] + h.subrange(20, 32)
}

pub fn hex_digit_exec(d: u8) -> (c: char)
    requires
        d < 16,
    ensures
        c == hex_digit(d as nat),
{
    if d == 0 {
        '0'
    } else if d == 1 {
        '1'
    } else if d == 2 {
        '2'
    } else if d == 3 {
        '3'
    } else if d == 4 {
        '4'
    } else if d == 5 {
        '5'
    } else if d == 6 {
        '6'
    } else if d == 7 {
        '7'
    } else if d == 8 {
        '8'
    } else if d == 9 {
        '9'
    } else if d == 10 {
        'a'
    } else if d == 11 {
        'b'
    } else if d == 12 {
        'c'
    } else if d == 13 {
        'd'
    } else if d == 14 {
        'e'
    } else {
        'f'
    }
}

/// The last `count` hexadecimal digits of `v`, most significant first.
pub fn hex_digits_exec(v: u128, count: usize) -> (r: Vec<char>)
    ensures
        r@ == hex_digits(v as nat, count as nat),
    decreases count,
{
    if count == 0 {
        Vec::new()
    } else {
        let mut r = hex_digits_exec(v / 16, count - 1);
        r.push(hex_digit_exec((v % 16) as u8));
        r
    }
}

pub proof fn lemma_hex_digits_len(v: nat, count: nat)
    ensures
        hex_digits(v, count).len() == count,
    decreases count,
{
    if count > 0 {
        lemma_hex_digits_len(v / 16, (count - 1) as nat);
    }
}

/// The hyphenated lowercase text of a UUID, as `uuid::Uuid` displays it.
pub fn uuid_to_text(v: u128) -> (r: String)
    ensures
        r@ == uuid_text(v),
{
    let h = hex_digits_exec(v, 32);
    proof {
        lemma_hex_digits_len(v as nat, 32);
    }
    let mut r = String::new();
    let mut i: usize = 0;
    while i < 32
        invariant
            h@ == hex_digits(v as nat, 32),
            h@.len() == 32,
            i <= 32,
            r@ == uuid_prefix(h@, i as int),
        decreases 32 - i,
    {
        if i == 8 || i == 12 || i == 16 || i == 20 {
            push_char(&mut r, '-');
        }
        push_char(&mut r, h[i]);
        i += 1;
    }
    proof {
        lemma_uuid_prefix_full(h@);
    }
    r
}

/// The text of the first `i` hex digits of `h`, with the group hyphens placed before them.
pub open spec fn uuid_prefix(h: Seq<char>, i: int) -> Seq<char>
    decreases i,
{
    if i <= 0 {
        Seq::empty()
    } else if i == 8 || i == 12 || i == 16 || i == 20 {
        uuid_prefix(h, i - 1).push(h[i - 1])
    } else if i == 9 || i == 13 || i == 17 || i == 21 {
        uuid_prefix(h, i - 1).push('-').push(h[i - 1])
    } else {
        uuid_prefix(h, i - 1).push(h[i - 1])
    }
}

proof fn lemma_uuid_prefix_full(h: Seq<char>)
    requires
        h.len() == 32,
    ensures
        uuid_prefix(h, 32) == h.subrange(0, 8) + seq!['-'] + h.subrange(8, 12) + seq!['-']
            + h.subrange(12, 16) + seq!['-'] + h.subrange(16, 20) + seq!['-'] + h.subrange(20, 32),
{
    reveal_with_fuel(uuid_prefix, 33);
    assert(uuid_prefix(h, 32) =~= h.subrange(0, 8) + seq!['-'] + h.subrange(8, 12) + seq!['-']
        + h.subrange(12, 16) + seq!['-'] + h.subrange(16, 20) + seq!['-'] + h.subrange(20, 32));
}

} // verus!
