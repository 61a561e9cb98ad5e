//! The type classifier: the literal classification table, its priority
//! order, and its purity.

use imscc_manifest::item_type::typestr_to_type;
use imscc_manifest::item_type::ItemType;
use imscc_manifest::text::contains_substring;
use imscc_manifest::text::str_eq;

#[test]
fn classification_table() {
    assert_eq!(typestr_to_type(""), ItemType::NoType);
    assert_eq!(typestr_to_type("webcontent"), ItemType::WebContent);
    assert_eq!(typestr_to_type("imsdt_xmlv1p1"), ItemType::DiscussionTopic);
    assert_eq!(
        typestr_to_type("imsqti_xmlv1p2/imscc_xmlv1p1/assessment"),
        ItemType::Assessment
    );
    assert_eq!(
        typestr_to_type("associatedcontent/imscc_xmlv1p1/learning-application-resource"),
        ItemType::Assignment
    );
    assert_eq!(
        typestr_to_type("something-else"),
        ItemType::Unknown { type_string: "something-else".to_string() }
    );
}

#[test]
fn classification_is_deterministic() {
    let samples = ["", "webcontent", "imsdt_xmlv1p1", "quiz", "wl", "anything at all"];
    for raw in samples {
        assert_eq!(typestr_to_type(raw), typestr_to_type(raw));
    }
}

#[test]
fn classification_priority_order() {
    // The categories overlap; the earlier row of the table wins.
    assert_eq!(typestr_to_type("assignment-quiz"), ItemType::Assignment);
    assert_eq!(typestr_to_type("quiz-webcontent"), ItemType::Assessment);
    assert_eq!(typestr_to_type("imsdt/webcontent"), ItemType::DiscussionTopic);
    assert_eq!(typestr_to_type("webcontent/wl"), ItemType::WebContent);
    // "wl" matches anywhere in the string.
    assert_eq!(typestr_to_type("imswl_xmlv1p1"), ItemType::WebLink);
}

#[test]
fn classification_more_rows() {
    assert_eq!(typestr_to_type("assignment_xmlv1"), ItemType::Assignment);
    assert_eq!(typestr_to_type("some-quiz-thing"), ItemType::Assessment);
    assert_eq!(
        typestr_to_type("xyz"),
        ItemType::Unknown { type_string: "xyz".to_string() }
    );
}

#[test]
fn unknown_preserves_raw_string() {
    let raw = "never/seen/before";
    match typestr_to_type(raw) {
        ItemType::Unknown { type_string } => assert_eq!(type_string, raw),
        other => panic!("expected Unknown, got {:?}", other),
    }
}

#[test]
fn substring_search_matches_containment() {
    assert!(contains_substring("abcdef", "cde"));
    assert!(contains_substring("abcdef", ""));
    assert!(contains_substring("abcdef", "abcdef"));
    assert!(!contains_substring("abcdef", "cdx"));
    assert!(!contains_substring("ab", "abc"));
}

#[test]
fn string_equality_is_by_characters() {
    assert!(str_eq("item", "item"));
    assert!(!str_eq("item", "items"));
    assert!(!str_eq("item", "Item"));
    assert!(str_eq("", ""));
}
