use core::cmp::Ordering;
use log_facade::text::{order_from_sign, sign_of_bytes, sign_of_strs, str_eq};

#[test]
fn strings_are_ordered_byte_by_byte() {
    assert_eq!(sign_of_strs("", ""), 0);
    assert_eq!(sign_of_strs("", "a"), -1);
    assert_eq!(sign_of_strs("a", ""), 1);
    assert_eq!(sign_of_strs("abc", "abd"), -1);
    assert_eq!(sign_of_strs("abd", "abc"), 1);
    assert_eq!(sign_of_strs("ab", "abc"), -1);
    assert_eq!(sign_of_strs("B", "a"), -1);
    assert_eq!(sign_of_strs("z", "\u{e4}"), -1);
    assert_eq!(sign_of_bytes(&[1, 2, 3], &[1, 2, 3]), 0);
    assert_eq!(sign_of_bytes(&[255], &[0, 0]), 1);
}

#[test]
fn order_of_strings_agrees_with_std() {
    let words = ["", "a", "A", "ab", "b", "\u{e4}", "zz", "a\u{0}"];
    for a in words {
        for b in words {
            let want = match a.cmp(b) {
                Ordering::Less => -1,
                Ordering::Equal => 0,
                Ordering::Greater => 1,
            };
            assert_eq!(sign_of_strs(a, b), want);
            assert_eq!(str_eq(a, b), a == b);
        }
    }
}

#[test]
fn a_sign_stands_for_an_order() {
    assert_eq!(order_from_sign(-1), Ordering::Less);
    assert_eq!(order_from_sign(0), Ordering::Equal);
    assert_eq!(order_from_sign(1), Ordering::Greater);
    assert_eq!(order_from_sign(i8::MIN), Ordering::Less);
    assert_eq!(order_from_sign(i8::MAX), Ordering::Greater);
}
