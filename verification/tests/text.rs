use std::borrow::Cow;

use turborepo_discovery::text::{clone_cow, cow_str, split_once, static_cow, str_eq};

#[test]
fn comparing() {
    assert!(str_eq("", ""));
    assert!(str_eq("\u{e9}a", "\u{e9}a"));
    assert!(!str_eq("a", "b"));
    assert!(!str_eq("a", "ab"));
    assert!(!str_eq("\u{e9}", "e"));
}

#[test]
fn splitting_agrees_with_std() {
    for text in ["", "#", "##", "a", "a#", "#a", "a#b", "a#b#c", "\u{e9}#\u{1f680}#"] {
        assert_eq!(split_once(text, '#'), text.split_once('#'));
    }
    assert_eq!(split_once("key=value", '='), Some(("key", "value")));
}

#[test]
fn owning() {
    let text = String::from("text");
    let borrowed: Cow<str> = Cow::Borrowed(text.as_str());
    assert_eq!(cow_str(&borrowed), "text");
    assert!(matches!(clone_cow(&borrowed), Cow::Borrowed("text")));
    let owned = static_cow(borrowed);
    assert!(matches!(&owned, Cow::Owned(inner) if inner == "text"));
    assert_eq!(cow_str(&owned), "text");
    assert_eq!(clone_cow(&owned), owned);
    assert_eq!(static_cow(owned), "text");
}

#[test]
fn an_owned_text_is_handed_back() {
    let text = String::from("text");
    let address = text.as_ptr();
    match static_cow(Cow::Owned(text)) {
        Cow::Owned(same) => assert_eq!(same.as_ptr(), address),
        Cow::Borrowed(_) => panic!("the text is owned"),
    }
}
