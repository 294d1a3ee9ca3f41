//! Equality and order of strings, byte by byte.
//!
//! Strings are compared as their UTF-8 bytes, from the first byte on: the
//! order in which keys and targets are ranked. The sign of a comparison is
//! -1, 0 or 1.

use vstd::prelude::*;
use vstd::string::*;
use core::cmp::Ordering;

verus! {

broadcast use vstd::slice::group_slice_axioms;

/// The sign of comparing `a` with `b` from the first byte on: -1 where `a`
/// comes first, 0 where the two are equal, 1 where `b` comes first.
pub open spec fn lex_sign(a: Seq<u8>, b: Seq<u8>) -> int
    decreases a.len(),
{
    if a.len() == 0 {
        if b.len() == 0 {
            0
        } else {
            -1
        }
    } else if b.len() == 0 {
        1
    } else if a[0] < b[0] {
        -1
    } else if a[0] > b[0] {
        1
    } else {
        lex_sign(a.skip(1), b.skip(1))
    }
}

/// The sign of comparing two strings by their bytes.
pub open spec fn str_sign(a: Seq<char>, b: Seq<char>) -> int {
    lex_sign(vstd::utf8::encode_utf8(a), vstd::utf8::encode_utf8(b))
}

/// Two byte strings compare as equal exactly when they are the same.
pub proof fn lemma_lex_sign_zero(a: Seq<u8>, b: Seq<u8>)
    ensures
        lex_sign(a, b) == 0 <==> a == b,
    decreases a.len(),
{
    if a.len() == 0 || b.len() == 0 {
        if a.len() == 0 && b.len() == 0 {
            assert(a =~= b);
        }
    } else if a[0] == b[0] {
        lemma_lex_sign_zero(a.skip(1), b.skip(1));
        if a.skip(1) == b.skip(1) {
            assert forall|i: int| 0 <= i < a.len() implies a[i] == b[i] by {
                if i > 0 {
                    assert(a[i] == a.skip(1)[i - 1]);
                    assert(b[i] == b.skip(1)[i - 1]);
                }
            }
            assert(a.len() == a.skip(1).len() + 1);
            assert(b.len() == b.skip(1).len() + 1);
            assert(a =~= b);
        }
    }
}

/// Swapping the two sides flips the sign.
pub proof fn lemma_lex_sign_swap(a: Seq<u8>, b: Seq<u8>)
    ensures
        lex_sign(b, a) == -lex_sign(a, b),
    decreases a.len(),
{
    if a.len() != 0 && b.len() != 0 && a[0] == b[0] {
        lemma_lex_sign_swap(a.skip(1), b.skip(1));
    }
}

/// The order is transitive: what comes no later than `b`, which comes no
/// later than `c`, comes no later than `c`; strictly so where one step is strict.
pub proof fn lemma_lex_sign_trans(a: Seq<u8>, b: Seq<u8>, c: Seq<u8>)
    requires
        lex_sign(a, b) <= 0,
        lex_sign(b, c) <= 0,
    ensures
        lex_sign(a, c) <= 0,
        lex_sign(a, b) < 0 || lex_sign(b, c) < 0 ==> lex_sign(a, c) < 0,
    decreases a.len(),
{
    if a.len() != 0 && b.len() != 0 && c.len() != 0 && a[0] == b[0] && b[0] == c[0] {
        lemma_lex_sign_trans(a.skip(1), b.skip(1), c.skip(1));
    }
}

/// Two strings have the same bytes exactly when they have the same characters.
pub proof fn lemma_same_bytes_same_chars(a: Seq<char>, b: Seq<char>)
    ensures
        vstd::utf8::encode_utf8(a) == vstd::utf8::encode_utf8(b) <==> a == b,
{
    vstd::utf8::encode_utf8_decode_utf8(a);
    vstd::utf8::encode_utf8_decode_utf8(b);
}

/// Two strings compare as equal exactly when they are the same.
pub proof fn lemma_str_sign_zero(a: Seq<char>, b: Seq<char>)
    ensures
        str_sign(a, b) == 0 <==> a == b,
{
    lemma_lex_sign_zero(vstd::utf8::encode_utf8(a), vstd::utf8::encode_utf8(b));
    lemma_same_bytes_same_chars(a, b);
}

/// The order of strings is transitive.
pub proof fn lemma_str_sign_trans(a: Seq<char>, b: Seq<char>, c: Seq<char>)
    requires
        str_sign(a, b) <= 0,
        str_sign(b, c) <= 0,
    ensures
        str_sign(a, c) <= 0,
        str_sign(a, b) < 0 || str_sign(b, c) < 0 ==> str_sign(a, c) < 0,
{
    lemma_lex_sign_trans(
        vstd::utf8::encode_utf8(a),
        vstd::utf8::encode_utf8(b),
        vstd::utf8::encode_utf8(c),
    );
}

/// Swapping the two sides of a comparison of strings flips the sign.
pub proof fn lemma_str_sign_swap(a: Seq<char>, b: Seq<char>)
    ensures
        str_sign(b, a) == -str_sign(a, b),
{
    lemma_lex_sign_swap(vstd::utf8::encode_utf8(a), vstd::utf8::encode_utf8(b));
}

/// Compares two byte slices from the first byte on.
pub fn sign_of_bytes(a: &[u8], b: &[u8]) -> (r: i8)
    ensures
        r == lex_sign(a@, b@),
{
    let mut i: usize = 0;
    proof {
        assert(a@.skip(0) =~= a@);
        assert(b@.skip(0) =~= b@);
    }
    while i < a.len() && i < b.len()
        invariant
            i <= a.len(),
            i <= b.len(),
            lex_sign(a@, b@) == lex_sign(a@.skip(i as int), b@.skip(i as int)),
        decreases a.len() - i,
    {
        proof {
            assert(a@.skip(i as int)[0] == a@[i as int]);
            assert(b@.skip(i as int)[0] == b@[i as int]);
            assert(a@.skip(i as int).skip(1) =~= a@.skip(i + 1));
            assert(b@.skip(i as int).skip(1) =~= b@.skip(i + 1));
        }
        if a[i] < b[i] {
            return -1;
        }
        if a[i] > b[i] {
            return 1;
        }
        i += 1;
    }
    if i < b.len() {
        -1
    } else if i < a.len() {
        1
    } else {
        0
    }
}

/// Compares two strings by their bytes.
pub fn sign_of_strs(a: &str, b: &str) -> (r: i8)
    ensures
        r == str_sign(a@, b@),
{
    sign_of_bytes(a.as_bytes(), b.as_bytes())
}

/// Whether two strings hold the same characters.
pub fn str_eq(a: &str, b: &str) -> (r: bool)
    ensures
        r == (a@ == b@),
{
    proof {
        lemma_str_sign_zero(a@, b@);
    }
    sign_of_strs(a, b) == 0
}

/// The order that a sign stands for.
pub open spec fn order_of_sign(sign: int) -> Ordering {
    if sign < 0 {
        Ordering::Less
    } else if sign == 0 {
        Ordering::Equal
    } else {
        Ordering::Greater
    }
}

/// The order that a sign stands for, computed.
pub fn order_from_sign(sign: i8) -> (r: Ordering)
    ensures
        sign < 0 ==> r == Ordering::Less,
        sign == 0 ==> r == Ordering::Equal,
        sign > 0 ==> r == Ordering::Greater,
{
    if sign < 0 {
        Ordering::Less
    } else if sign == 0 {
        Ordering::Equal
    } else {
        Ordering::Greater
    }
}

} // verus!
