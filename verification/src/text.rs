//! Text as bytes: equality, ASCII case folding, order, and decimal integers.

use vstd::prelude::*;
use vstd::utf8::*;

verus! {

/// An upper-case ASCII letter as its lower-case letter; any other byte as it is.
pub open spec fn ascii_lower(byte: u8) -> u8 {
    if 65 <= byte <= 90 {
        (byte + 32) as u8
    } else {
        byte
    }
}

/// Whether `a` and `b` are equal once ASCII letters are taken without case.
pub open spec fn same_ignoring_ascii_case(a: Seq<u8>, b: Seq<u8>) -> bool {
    a.len() == b.len() && forall|i: int| 0 <= i < a.len() ==> ascii_lower(a[i]) == ascii_lower(b[i])
}

/// Whether `a` and `b` are the same text: equal, or equal but for the case of
/// ASCII letters where `ignore_case` is set.
pub open spec fn text_matches(a: Seq<char>, b: Seq<char>, ignore_case: bool) -> bool {
    if ignore_case {
        same_ignoring_ascii_case(encode_utf8(a), encode_utf8(b))
    } else {
        a == b
    }
}

/// Lexicographic order of byte strings: -1 where `a` comes first, 1 where `b`
/// does, 0 where they are equal. A proper prefix comes first.
pub open spec fn byte_order(a: Seq<u8>, b: Seq<u8>) -> int
    decreases a.len(),
{
    if a.len() == 0 && b.len() == 0 {
        0
    } else if a.len() == 0 {
        -1
    } else if b.len() == 0 {
        1
    } else if a[0] < b[0] {
        -1
    } else if a[0] > b[0] {
        1
    } else {
        byte_order(a.skip(1), b.skip(1))
    }
}

/// Texts are equal exactly where their UTF-8 encodings are.
pub proof fn lemma_text_equal_iff_bytes_equal(a: Seq<char>, b: Seq<char>)
    ensures
        a == b <==> encode_utf8(a) == encode_utf8(b),
{
    encode_utf8_decode_utf8(a);
    encode_utf8_decode_utf8(b);
}

/// Texts that are equal match with and without regard to case.
pub proof fn lemma_equal_texts_match(a: Seq<char>, ignore_case: bool)
    ensures
        text_matches(a, a, ignore_case),
{
}

/// `byte_order` is 0 exactly on equal byte strings.
pub proof fn lemma_byte_order_zero_iff_equal(a: Seq<u8>, b: Seq<u8>)
    ensures
        byte_order(a, b) == 0 <==> a == b,
        -1 <= byte_order(a, b) <= 1,
    decreases a.len(),
{
    if a.len() > 0 && b.len() > 0 && a[0] == b[0] {
        lemma_byte_order_zero_iff_equal(a.skip(1), b.skip(1));
        if a.skip(1) == b.skip(1) {
            assert forall|i: int| 0 <= i < a.len() implies a[i] == b[i] by {
                if i > 0 {
                    assert(b[i] == b.skip(1)[i - 1]);
                }
            }
            assert(a =~= b);
        }
    } else if a.len() == 0 && b.len() == 0 {
        assert(a =~= b);
    }
}

/// Swapping the two byte strings turns their order round.
pub proof fn lemma_byte_order_antisymmetric(a: Seq<u8>, b: Seq<u8>)
    ensures
        byte_order(b, a) == -byte_order(a, b),
    decreases a.len(),
{
    if a.len() > 0 && b.len() > 0 && a[0] == b[0] {
        lemma_byte_order_antisymmetric(a.skip(1), b.skip(1));
    }
}

/// An upper-case ASCII letter as its lower-case letter; any other byte as it is.
pub fn to_ascii_lower(byte: u8) -> (lower: u8)
    ensures
        lower == ascii_lower(byte),
{
    if 65 <= byte && byte <= 90 {
        byte + 32
    } else {
        byte
    }
}

/// Whether two byte strings are equal.
pub fn bytes_equal(a: &[u8], b: &[u8]) -> (same: bool)
    ensures
        same == (a@ == b@),
{
    if a.len() != b.len() {
        return false;
    }
    let mut i: usize = 0;
    while i < a.len()
        invariant
            a.len() == b.len(),
            i <= a.len(),
            forall|j: int| 0 <= j < i ==> a@[j] == b@[j],
        decreases a.len() - i,
    {
        if a[i] != b[i] {
            return false;
        }
        i = i + 1;
    }
    assert(a@ =~= b@);
    true
}

/// Whether two byte strings are equal but for the case of ASCII letters.
pub fn bytes_equal_ignore_ascii_case(a: &[u8], b: &[u8]) -> (same: bool)
    ensures
        same == same_ignoring_ascii_case(a@, b@),
{
    if a.len() != b.len() {
        return false;
    }
    let mut i: usize = 0;
    while i < a.len()
        invariant
            a.len() == b.len(),
            i <= a.len(),
            forall|j: int| 0 <= j < i ==> ascii_lower(a@[j]) == ascii_lower(b@[j]),
        decreases a.len() - i,
    {
        if to_ascii_lower(a[i]) != to_ascii_lower(b[i]) {
            return false;
        }
        i = i + 1;
    }
    true
}

/// Whether `a` and `b` are the same text, with or without regard to the case
/// of ASCII letters.
pub fn text_equal(a: &str, b: &str, ignore_case: bool) -> (same: bool)
    ensures
        same == text_matches(a@, b@, ignore_case),
{
    if ignore_case {
        bytes_equal_ignore_ascii_case(a.as_bytes(), b.as_bytes())
    } else {
        proof {
            lemma_text_equal_iff_bytes_equal(a@, b@);
        }
        bytes_equal(a.as_bytes(), b.as_bytes())
    }
}

/// The lexicographic order of two byte strings as -1, 0 or 1.
pub fn order_bytes(a: &[u8], b: &[u8]) -> (order: i32)
    ensures
        order == byte_order(a@, b@),
{
    let mut i: usize = 0;
    assert(a@.skip(0) =~= a@ && b@.skip(0) =~= b@);
    while i < a.len() && i < b.len()
        invariant
            i <= a.len(),
            i <= b.len(),
            byte_order(a@, b@) == byte_order(a@.skip(i as int), b@.skip(i as int)),
        decreases a.len() - i,
    {
        proof {
            assert(a@.skip(i as int).skip(1) =~= a@.skip(i + 1));
            assert(b@.skip(i as int).skip(1) =~= b@.skip(i + 1));
        }
        if a[i] < b[i] {
            return -1;
        }
        if a[i] > b[i] {
            return 1;
        }
        i = i + 1;
    }
    if i < b.len() {
        -1
    } else if i < a.len() {
        1
    } else {
        0
    }
}

} // verus!
