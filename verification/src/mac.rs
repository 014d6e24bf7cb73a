use vstd::prelude::*;
use crate::text::{push_char, str_chars};

verus! {

/// An ASCII hexadecimal digit: `0-9`, `a-f` or `A-F`.
pub open spec fn is_hex_digit(c: char) -> bool {
    ('0' <= c && c <= '9') || ('a' <= c && c <= 'f') || ('A' <= c && c <= 'F')
}

/// The lowercase form of an ASCII character (other characters unchanged).
pub open spec fn ascii_lower(c: char) -> char {
    if 'A' <= c && c <= 'Z' {
        ((c as int) + 32) as char
    } else {
        c
    }
}

/// The hexadecimal digits of `s`, in order, in lowercase; all other
/// characters dropped.
pub open spec fn hex_digits_lower(s: Seq<char>) -> Seq<char>
    decreases s.len(),
{
    if s.len() == 0 {
        Seq::empty()
    } else if is_hex_digit(s.last()) {
        hex_digits_lower(s.drop_last()).push(ascii_lower(s.last()))
    } else {
        hex_digits_lower(s.drop_last())
    }
}

/// `h` cut into chunks of two characters (the last one may be shorter),
/// joined by `:`; that is, a `:` in front of every character at an even
/// position other than the first.
pub open spec fn colon_pairs(h: Seq<char>) -> Seq<char>
    decreases h.len(),
{
    if h.len() == 0 {
        Seq::empty()
    } else {
        let i = h.len() - 1;
        let sep: Seq<char> = if i > 0 && i % 2 == 0 { seq![':'] } else { Seq::empty() };
        colon_pairs(h.drop_last()) + sep + seq![h[i]]
    }
}

/// The normal form of a MAC address: its hex digits in lowercase, in pairs
/// separated by colons (e.g. `AA-BB-CC-DD-EE-FF` becomes `aa:bb:cc:dd:ee:ff`).
pub open spec fn spec_normalize_mac(mac: Seq<char>) -> Seq<char> {
    colon_pairs(hex_digits_lower(mac))
}

fn is_hex_digit_exec(c: char) -> (res: bool)
    ensures
        res == is_hex_digit(c),
{
    ('0' <= c && c <= '9') || ('a' <= c && c <= 'f') || ('A' <= c && c <= 'F')
}

fn hex_lower_exec(c: char) -> (res: char)
    requires
        is_hex_digit(c),
    ensures
        res == ascii_lower(c),
{
    match c {
        'A' => 'a',
        'B' => 'b',
        'C' => 'c',
        'D' => 'd',
        'E' => 'e',
        'F' => 'f',
        _ => c,
    }
}

/// Normalizes a MAC address to lowercase colon-separated form, keeping
/// only its hex digits (e.g. `AA-BB-CC-DD-EE-FF` gives `aa:bb:cc:dd:ee:ff`).
pub fn normalize_mac(mac: &str) -> (res: String)
    ensures
        res@ == spec_normalize_mac(mac@),
{
    let chars = str_chars(mac);
    let mut hex: Vec<char> = Vec::new();
    let mut i: usize = 0;
    while i < chars.len()
        invariant
            i <= chars.len(),
            chars@ == mac@,
            hex@ == hex_digits_lower(chars@.take(i as int)),
        decreases chars.len() - i,
    {
        let c = chars[i];
        assert(chars@.take(i as int + 1).drop_last() =~= chars@.take(i as int));
        if is_hex_digit_exec(c) {
            hex.push(hex_lower_exec(c));
        }
        i = i + 1;
    }
    assert(chars@.take(chars.len() as int) =~= chars@);
    let mut res = String::new();
    let mut j: usize = 0;
    while j < hex.len()
        invariant
            j <= hex.len(),
            res@ == colon_pairs(hex@.take(j as int)),
        decreases hex.len() - j,
    {
        assert(hex@.take(j as int + 1).drop_last() =~= hex@.take(j as int));
        if j > 0 && j % 2 == 0 {
            push_char(&mut res, ':');
        }
        push_char(&mut res, hex[j]);
        j = j + 1;
        assert(res@ =~= colon_pairs(hex@.take(j as int)));
    }
    assert(hex@.take(hex.len() as int) =~= hex@);
    res
}

/// A lowercase ASCII hexadecimal digit.
pub open spec fn is_lower_hex_digit(c: char) -> bool {
    is_hex_digit(c) && ascii_lower(c) == c
}

proof fn lemma_hex_digits_lower_concat(a: Seq<char>, b: Seq<char>)
    ensures
        hex_digits_lower(a + b) == hex_digits_lower(a) + hex_digits_lower(b),
    decreases b.len(),
{
    if b.len() == 0 {
        assert(a + b =~= a);
        assert(hex_digits_lower(a) + hex_digits_lower(b) =~= hex_digits_lower(a));
    } else {
        lemma_hex_digits_lower_concat(a, b.drop_last());
        assert((a + b).drop_last() =~= a + b.drop_last());
        assert((a + b).last() == b.last());
        if is_hex_digit(b.last()) {
            assert(hex_digits_lower(a) + hex_digits_lower(b) =~= (hex_digits_lower(a)
                + hex_digits_lower(b.drop_last())).push(ascii_lower(b.last())));
        }
    }
}

proof fn lemma_lower_of_hex_digit(c: char)
    requires
        is_hex_digit(c),
    ensures
        is_lower_hex_digit(ascii_lower(c)),
{
    assert('0' as int == 48 && '9' as int == 57 && 'a' as int == 97 && 'f' as int == 102);
    assert('A' as int == 65 && 'F' as int == 70 && 'Z' as int == 90);
    if 'A' <= c && c <= 'F' {
        assert(ascii_lower(c) as int == c as int + 32);
    }
}

proof fn lemma_hex_digits_lower_is_lower_hex(s: Seq<char>)
    ensures
        forall|i: int|
            0 <= i < hex_digits_lower(s).len() ==> is_lower_hex_digit(
                #[trigger] hex_digits_lower(s)[i],
            ),
    decreases s.len(),
{
    if s.len() > 0 {
        lemma_hex_digits_lower_is_lower_hex(s.drop_last());
        if is_hex_digit(s.last()) {
            lemma_lower_of_hex_digit(s.last());
            let prev = hex_digits_lower(s.drop_last());
            assert forall|i: int|
                0 <= i < hex_digits_lower(s).len() implies is_lower_hex_digit(
                #[trigger] hex_digits_lower(s)[i],
            ) by {
                if i < prev.len() {
                    assert(hex_digits_lower(s)[i] == prev[i]);
                }
            }
        }
    }
}

proof fn lemma_hex_digits_of_colon_pairs(h: Seq<char>)
    requires
        forall|i: int| 0 <= i < h.len() ==> is_lower_hex_digit(#[trigger] h[i]),
    ensures
        hex_digits_lower(colon_pairs(h)) == h,
    decreases h.len(),
{
    if h.len() > 0 {
        let i = h.len() - 1;
        let sep: Seq<char> = if i > 0 && i % 2 == 0 { seq![':'] } else { Seq::empty() };
        lemma_hex_digits_of_colon_pairs(h.drop_last());
        lemma_hex_digits_lower_concat(colon_pairs(h.drop_last()) + sep, seq![h[i]]);
        lemma_hex_digits_lower_concat(colon_pairs(h.drop_last()), sep);
        assert(hex_digits_lower(sep) =~= Seq::<char>::empty()) by {
            if sep.len() == 1 {
                assert(sep.drop_last() =~= Seq::<char>::empty());
                assert(sep.last() == ':');
                assert(!is_hex_digit(':'));
                assert(hex_digits_lower(Seq::<char>::empty()) =~= Seq::<char>::empty());
            } else {
                assert(sep =~= Seq::<char>::empty());
            }
        }
        assert(is_lower_hex_digit(h[i]));
        assert(seq![h[i]].drop_last() =~= Seq::<char>::empty());
        assert(seq![h[i]].last() == h[i]);
        assert(hex_digits_lower(Seq::<char>::empty()) =~= Seq::<char>::empty());
        assert(hex_digits_lower(seq![h[i]]) =~= seq![h[i]]);
        assert(h.drop_last() + seq![h[i]] =~= h);
        assert(h.drop_last() + Seq::<char>::empty() =~= h.drop_last());
    }
}

/// Normalizing a MAC address twice gives the same text as normalizing it
/// once: a normalized address is a fixed point of `normalize_mac`.
pub proof fn lemma_normalize_mac_idempotent(mac: Seq<char>)
    ensures
        spec_normalize_mac(spec_normalize_mac(mac)) == spec_normalize_mac(mac),
{
    lemma_hex_digits_lower_is_lower_hex(mac);
    lemma_hex_digits_of_colon_pairs(hex_digits_lower(mac));
}

} // verus!
