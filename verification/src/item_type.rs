//! The closed taxonomy of content types and the classifier that maps a
//! raw type string onto it.
//!
//! Classification is a priority-ordered first-match-wins table over
//! substring tests; the categories overlap, so the order is part of the
//! contract.

use vstd::prelude::*;

use crate::text::contains_sub;
use crate::text::contains_substring;

verus! {

/// Classified content type of a resource, and transitively of a module
/// item referencing it. `NoType` marks explicit absence or an empty raw
/// string; `Unknown` preserves a non-empty unrecognized raw string
/// verbatim.
#[derive(Debug, PartialEq)]
pub enum ItemType {
    Assignment,
    Assessment,
    DiscussionTopic,
    WebContent,
    WebLink,
    NoType,
    Unknown { type_string: String },
}

/// Mathematical image of `ItemType`: the same variants over `Seq<char>`.
pub enum ItemTypeV {
    Assignment,
    Assessment,
    DiscussionTopic,
    WebContent,
    WebLink,
    NoType,
    Unknown { type_string: Seq<char> },
}

impl View for ItemType {
    type V = ItemTypeV;

    open spec fn view(&self) -> ItemTypeV {
        match self {
            ItemType::Assignment => ItemTypeV::Assignment,
            ItemType::Assessment => ItemTypeV::Assessment,
            ItemType::DiscussionTopic => ItemTypeV::DiscussionTopic,
            ItemType::WebContent => ItemTypeV::WebContent,
            ItemType::WebLink => ItemTypeV::WebLink,
            ItemType::NoType => ItemTypeV::NoType,
            ItemType::Unknown { type_string } => ItemTypeV::Unknown {
                type_string: type_string@,
            },
        }
    }
}

impl Clone for ItemType {
    fn clone(&self) -> (res: Self)
        ensures
            res == *self,
    {
        match self {
            ItemType::Assignment => ItemType::Assignment,
            ItemType::Assessment => ItemType::Assessment,
            ItemType::DiscussionTopic => ItemType::DiscussionTopic,
            ItemType::WebContent => ItemType::WebContent,
            ItemType::WebLink => ItemType::WebLink,
            ItemType::NoType => ItemType::NoType,
            ItemType::Unknown { type_string } => ItemType::Unknown {
                type_string: type_string.clone(),
            },
        }
    }
}

/// The classification table, in its fixed priority order: empty, then
/// assignment (or the associated-content learning-application marker),
/// then assessment or quiz, then the discussion-topic schema marker,
/// then web content, then web link; anything else is kept verbatim as
/// `Unknown`.
pub open spec fn classify_spec(raw: Seq<char>) -> ItemTypeV {
    if raw.len() == 0 {
        ItemTypeV::NoType
    } else if contains_sub(raw, "assignment"@) || contains_sub(
        raw,
        "associatedcontent/imscc_xmlv1p1/learning-application-resource"@,
    ) {
        ItemTypeV::Assignment
    } else if contains_sub(raw, "assessment"@) || contains_sub(raw, "quiz"@) {
        ItemTypeV::Assessment
    } else if contains_sub(raw, "imsdt"@) {
        ItemTypeV::DiscussionTopic
    } else if contains_sub(raw, "webcontent"@) {
        ItemTypeV::WebContent
    } else if contains_sub(raw, "wl"@) {
        ItemTypeV::WebLink
    } else {
        ItemTypeV::Unknown { type_string: raw }
    }
}

/// Classify a raw resource type string; the result is exactly
/// `classify_spec` of the string's characters.
pub fn typestr_to_type(i_type: &str) -> (t: ItemType)
    ensures
        t@ == classify_spec(i_type@),
{
    if i_type.unicode_len() == 0 {
        return ItemType::NoType;
    }
    if contains_substring(i_type, "assignment") || contains_substring(
        i_type,
        "associatedcontent/imscc_xmlv1p1/learning-application-resource",
    ) {
        return ItemType::Assignment;
    }
    if contains_substring(i_type, "assessment") || contains_substring(i_type, "quiz") {
        return ItemType::Assessment;
    }
    if contains_substring(i_type, "imsdt") {
        return ItemType::DiscussionTopic;
    }
    if contains_substring(i_type, "webcontent") {
        return ItemType::WebContent;
    }
    if contains_substring(i_type, "wl") {
        return ItemType::WebLink;
    }
    ItemType::Unknown { type_string: i_type.to_owned() }
}

/// Law: classification is a deterministic pure function of the raw
/// string alone; re-classifying an equal string yields the same variant,
/// independent of call order or any other state.
pub proof fn lemma_classification_deterministic(a: Seq<char>, b: Seq<char>)
    requires
        a == b,
    ensures
        classify_spec(a) == classify_spec(b),
{
}

} // verus!
