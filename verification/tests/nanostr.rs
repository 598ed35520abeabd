use nanostr::inner::{Inline, Owned};
use nanostr::NanoString;
use std::collections::hash_map::DefaultHasher;
use std::hash::{Hash, Hasher};

const LONG: &str = "this string is definitely too long for inline storage";

fn str_hash(s: &str) -> u64 {
    let mut h = DefaultHasher::new();
    s.hash(&mut h);
    h.finish()
}

#[test]
fn size() {
    assert_eq!(16, std::mem::size_of::<NanoString>());
}

#[test]
fn from_hello_is_inline() {
    let v = NanoString::from("hello");
    assert!(v.is_inline());
    assert_eq!(v.as_str(), "hello");
    assert_eq!(v.len(), 5);
}

#[test]
fn from_long_is_owned() {
    let v = NanoString::from(LONG);
    assert!(!v.is_inline());
    assert_eq!(v.as_str(), LONG);
    assert_eq!(v.len(), LONG.len());
}

#[test]
fn from_empty_is_inline_and_default() {
    let v = NanoString::from("");
    assert!(v.is_inline());
    assert_eq!(v.len(), 0);
    assert_eq!(v.as_bytes(), &[] as &[u8]);
    assert_eq!(v.as_str(), "");
    assert!(v == NanoString::default());
}

#[test]
fn new_yields_empty_inline() {
    let seed = NanoString::from("anything");
    let v = seed.new();
    assert!(v.is_inline());
    assert_eq!(v.len(), 0);
    assert_eq!(v.as_str(), "");
}

#[test]
fn capacity_boundary() {
    let fifteen = "abcdefghijklmno";
    assert_eq!(fifteen.len(), 15);
    let v = NanoString::from(fifteen);
    assert!(v.is_inline());
    assert_eq!(v.as_str(), fifteen);

    let sixteen = "abcdefghijklmnop";
    assert_eq!(sixteen.len(), 16);
    let w = NanoString::from(sixteen);
    assert!(!w.is_inline());
    assert_eq!(w.as_str(), sixteen);
}

#[test]
fn zero_byte_at_any_position_goes_owned() {
    let base = "abcdefghijklmno";
    for pos in 0..base.len() {
        let mut bytes = base.as_bytes().to_vec();
        bytes[pos] = 0;
        let s = String::from_utf8(bytes).unwrap();
        let v = NanoString::from(s.as_str());
        assert!(!v.is_inline());
        assert_eq!(v.as_str(), s.as_str());
        assert_eq!(v.len(), 15);
        assert_eq!(v.as_bytes()[pos], 0);
    }
}

#[test]
fn short_string_with_zero_byte_goes_owned() {
    let s = "ab\0cd";
    let v = NanoString::from(s);
    assert!(!v.is_inline());
    assert_eq!(v.as_str(), s);
    assert_eq!(v.len(), 5);
    assert_eq!(v.as_bytes(), s.as_bytes());
}

#[test]
fn multibyte_content_round_trips() {
    let s = "h\u{e9}llo";
    assert_eq!(s.len(), 6);
    let v = NanoString::from(s);
    assert!(v.is_inline());
    assert_eq!(v.as_str(), s);
    assert_eq!(v.len(), 6);

    let wide = "\u{e9}\u{e9}\u{e9}\u{e9}\u{e9}\u{e9}\u{e9}\u{e9}";
    assert_eq!(wide.len(), 16);
    let w = NanoString::from(wide);
    assert!(!w.is_inline());
    assert_eq!(w.as_str(), wide);
}

#[test]
fn reads_are_idempotent() {
    let v = NanoString::from("stable");
    assert_eq!(v.as_str(), v.as_str());
    assert_eq!(v.as_bytes(), v.as_bytes());
    assert_eq!(v.len(), v.len());
    let w = NanoString::from(LONG);
    assert_eq!(w.as_str(), w.as_str());
    assert_eq!(w.as_bytes(), w.as_bytes());
    assert_eq!(w.len(), w.len());
}

#[test]
fn equality_is_content_based() {
    let a = NanoString::from("same");
    let b = NanoString::from("same");
    assert!(a == b);
    assert_ne!(NanoString::from("a").as_str(), NanoString::from("b").as_str());
    assert!(NanoString::from("a") != NanoString::from("b"));

    let x = NanoString::from(LONG);
    let y = NanoString::from(LONG);
    assert!(x == y);
    assert_eq!(str_hash(x.as_str()), str_hash(y.as_str()));
}

#[test]
fn ordering_is_content_based() {
    assert!(NanoString::from("apple") < NanoString::from("banana"));
    assert!(NanoString::from("abc") < NanoString::from("abcd"));
    assert!(NanoString::from("a") < NanoString::from(LONG));
    assert!(NanoString::from(LONG) > NanoString::from("a"));
    assert!(NanoString::from("zzz") > NanoString::from(LONG));
    assert_eq!(
        NanoString::from("x").partial_cmp(&NanoString::from("x")),
        Some(std::cmp::Ordering::Equal)
    );
}

#[test]
fn representations_agree_on_content() {
    let owned = Owned::from_str("hello");
    let inline = Inline::try_from_str("hello").unwrap();
    assert_eq!(owned.as_str(), inline.as_str());
    assert_eq!(str_hash(owned.as_str()), str_hash(inline.as_str()));
}

#[test]
fn clone_reads_correctly_after_drop() {
    let a = NanoString::from(LONG);
    let b = a.clone();
    assert!(a == b);
    drop(a);
    assert_eq!(b.as_str(), LONG);
    assert!(!b.is_inline());

    let c = NanoString::from("tiny");
    let d = c.clone();
    assert!(c == d);
    drop(c);
    assert_eq!(d.as_str(), "tiny");
    assert!(d.is_inline());
}

#[test]
fn inline_try_from_str_gate() {
    assert!(Inline::try_from_str("abcdefghijklmno").is_some());
    assert!(Inline::try_from_str("abcdefghijklmnop").is_none());
    assert!(Inline::try_from_str("ab\0cd").is_none());
    assert!(Inline::try_from_str("").is_some());
}

#[test]
fn inline_accessors() {
    let i = Inline::try_from_str("abc").unwrap();
    assert_eq!(i.as_bytes(), "abc".as_bytes());
    assert_eq!(i.as_str(), "abc");
    let e = Inline::new();
    assert_eq!(e.as_bytes(), &[] as &[u8]);
    assert_eq!(e.as_str(), "");
}

#[test]
fn owned_accepts_anything() {
    let o = Owned::from_str("ab\0cd and quite a lot more text than fits");
    assert_eq!(o.as_str(), "ab\0cd and quite a lot more text than fits");
    let p = o.clone();
    assert_eq!(p.as_str(), o.as_str());
}
