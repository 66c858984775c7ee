//! Documents in the store's own format, and what can be said of their fields.
//!
//! A document is a value of the BSON library. Nothing in this file is proved:
//! each function states what the BSON library does, and the rest of the crate
//! is proved from these statements.

use mongodb::bson::Document;
use vstd::prelude::*;

verus! {

/// `mongodb::bson::Document`, the document of the BSON library, taken as it
/// is. What one holds is known only through [`fields_of`].
#[verifier::external_type_specification]
#[verifier::external_body]
pub struct ExDocument(mongodb::bson::Document);

/// What a field of a document holds, as far as this service reads documents.
pub enum FieldValue {
    /// A string.
    Text(Seq<char>),
    /// A 64-bit integer.
    Number(i64),
    /// A boolean.
    Flag(bool),
    /// An array, each element of which is a string.
    Texts(Seq<Seq<char>>),
    /// Anything else.
    Other,
}

/// The fields of a document: each key that is present, with what it holds.
pub uninterp spec fn fields_of(document: Document) -> Map<Seq<char>, FieldValue>;

/// What `fields` holds under `key`; `None` where the key is absent.
pub open spec fn field(fields: Map<Seq<char>, FieldValue>, key: Seq<char>) -> Option<FieldValue> {
    if fields.dom().contains(key) {
        Some(fields[key])
    } else {
        None
    }
}

/// The fields of a document that has none.
pub open spec fn no_fields() -> Map<Seq<char>, FieldValue> {
    Map::empty()
}

/// The names of the fields of the documents: how long each is, and how it
/// begins. No two of them are alike in all three.
pub proof fn lemma_field_names()
    ensures
        "_id"@.len() == 3 && "_id"@[0] == '_' && "_id"@[1] == 'i',
        "client_id"@.len() == 9 && "client_id"@[0] == 'c' && "client_id"@[1] == 'l',
        "title"@.len() == 5 && "title"@[0] == 't' && "title"@[1] == 'i',
        "start_time"@.len() == 10 && "start_time"@[0] == 's' && "start_time"@[1] == 't',
        "deadline"@.len() == 8 && "deadline"@[0] == 'd' && "deadline"@[1] == 'e',
        "description"@.len() == 11 && "description"@[0] == 'd' && "description"@[1] == 'e',
        "skills"@.len() == 6 && "skills"@[0] == 's' && "skills"@[1] == 'k',
        "bounty"@.len() == 6 && "bounty"@[0] == 'b' && "bounty"@[1] == 'o',
        "proposals_id"@.len() == 12 && "proposals_id"@[0] == 'p' && "proposals_id"@[1] == 'r',
        "role"@.len() == 4 && "role"@[0] == 'r' && "role"@[1] == 'o',
        "user_name"@.len() == 9 && "user_name"@[0] == 'u' && "user_name"@[1] == 's',
        "password"@.len() == 8 && "password"@[0] == 'p' && "password"@[1] == 'a',
        "tasks_ids"@.len() == 9 && "tasks_ids"@[0] == 't' && "tasks_ids"@[1] == 'a',
        "accepted"@.len() == 8 && "accepted"@[0] == 'a' && "accepted"@[1] == 'c',
        "proposal_price"@.len() == 14 && "proposal_price"@[0] == 'p' && "proposal_price"@[1] == 'r',
        "task_id"@.len() == 7 && "task_id"@[0] == 't' && "task_id"@[1] == 'a',
        "freelancer_id"@.len() == 13 && "freelancer_id"@[0] == 'f' && "freelancer_id"@[1] == 'r',
        "milestones_id"@.len() == 13 && "milestones_id"@[0] == 'm' && "milestones_id"@[1] == 'i',
        "proposal_id"@.len() == 11 && "proposal_id"@[0] == 'p' && "proposal_id"@[1] == 'r',
        "price"@.len() == 5 && "price"@[0] == 'p' && "price"@[1] == 'r',
        "link"@.len() == 4 && "link"@[0] == 'l' && "link"@[1] == 'i',
        "status"@.len() == 6 && "status"@[0] == 's' && "status"@[1] == 't',
        "address"@.len() == 7 && "address"@[0] == 'a' && "address"@[1] == 'd',
        "review"@.len() == 6 && "review"@[0] == 'r' && "review"@[1] == 'e',
        "deal_id"@.len() == 7 && "deal_id"@[0] == 'd' && "deal_id"@[1] == 'e',
        "stars"@.len() == 5 && "stars"@[0] == 's' && "stars"@[1] == 't',
        "milestones"@.len() == 10 && "milestones"@[0] == 'm' && "milestones"@[1] == 'i',
{
    reveal_strlit("_id");
    reveal_strlit("client_id");
    reveal_strlit("title");
    reveal_strlit("start_time");
    reveal_strlit("deadline");
    reveal_strlit("description");
    reveal_strlit("skills");
    reveal_strlit("bounty");
    reveal_strlit("proposals_id");
    reveal_strlit("role");
    reveal_strlit("user_name");
    reveal_strlit("password");
    reveal_strlit("tasks_ids");
    reveal_strlit("accepted");
    reveal_strlit("proposal_price");
    reveal_strlit("task_id");
    reveal_strlit("freelancer_id");
    reveal_strlit("milestones_id");
    reveal_strlit("proposal_id");
    reveal_strlit("price");
    reveal_strlit("link");
    reveal_strlit("status");
    reveal_strlit("address");
    reveal_strlit("review");
    reveal_strlit("deal_id");
    reveal_strlit("stars");
    reveal_strlit("milestones");
}

/// `Document::new`: a document without fields.
#[verifier::external_body]
pub(crate) fn new_document() -> (empty: Document)
    ensures
        fields_of(empty) == no_fields(),
{
    Document::new()
}

/// `Document::insert` with a string: afterwards `key` holds that string,
/// whatever it held before, and the other fields are as they were.
#[verifier::external_body]
pub(crate) fn put_text(document: &mut Document, key: &str, value: &str)
    ensures
        fields_of(*final(document)) == fields_of(*old(document)).insert(
            key@,
            FieldValue::Text(value@),
        ),
{
    document.insert(key, value);
}

/// `Document::insert` with an `i64`: afterwards `key` holds that 64-bit
/// integer, and the other fields are as they were.
#[verifier::external_body]
pub(crate) fn put_number(document: &mut Document, key: &str, value: i64)
    ensures
        fields_of(*final(document)) == fields_of(*old(document)).insert(
            key@,
            FieldValue::Number(value),
        ),
{
    document.insert(key, value);
}

/// `Document::insert` with a `bool`: afterwards `key` holds that boolean, and
/// the other fields are as they were.
#[verifier::external_body]
pub(crate) fn put_flag(document: &mut Document, key: &str, value: bool)
    ensures
        fields_of(*final(document)) == fields_of(*old(document)).insert(
            key@,
            FieldValue::Flag(value),
        ),
{
    document.insert(key, value);
}

/// `Document::insert` with a list of strings: afterwards `key` holds an array
/// of these strings, in their order, and the other fields are as they were.
#[verifier::external_body]
pub(crate) fn put_texts(document: &mut Document, key: &str, value: &Vec<String>)
    ensures
        fields_of(*final(document)) == fields_of(*old(document)).insert(
            key@,
            FieldValue::Texts(crate::text::texts(value@)),
        ),
{
    document.insert(key, value.clone());
}

/// `Document::contains_key`: whether `key` is present.
#[verifier::external_body]
pub(crate) fn has_field(document: &Document, key: &str) -> (present: bool)
    ensures
        present == fields_of(*document).dom().contains(key@),
{
    document.contains_key(key)
}

/// `Document::get_str`: the string under `key`, if `key` is present and holds
/// a string.
#[verifier::external_body]
pub(crate) fn text_at(document: &Document, key: &str) -> (value: Option<String>)
    ensures
        crate::text::maybe_text(value) == match field(fields_of(*document), key@) {
            Some(FieldValue::Text(t)) => Some(t),
            _ => None,
        },
{
    document.get_str(key).ok().map(|text| text.to_string())
}

/// `Document::get_i64`: the integer under `key`, if `key` is present and holds
/// a 64-bit integer.
#[verifier::external_body]
pub(crate) fn number_at(document: &Document, key: &str) -> (value: Option<i64>)
    ensures
        value == match field(fields_of(*document), key@) {
            Some(FieldValue::Number(n)) => Some(n),
            _ => None,
        },
{
    document.get_i64(key).ok()
}

/// `Document::get_bool`: the boolean under `key`, if `key` is present and
/// holds a boolean.
#[verifier::external_body]
pub(crate) fn flag_at(document: &Document, key: &str) -> (value: Option<bool>)
    ensures
        value == match field(fields_of(*document), key@) {
            Some(FieldValue::Flag(b)) => Some(b),
            _ => None,
        },
{
    document.get_bool(key).ok()
}

/// `Document::get_array`, each element read with `Bson::as_str`: the strings
/// under `key`, if `key` is present and holds an array of strings only.
#[verifier::external_body]
pub(crate) fn texts_at(document: &Document, key: &str) -> (value: Option<Vec<String>>)
    ensures
        crate::text::maybe_texts(value) == match field(fields_of(*document), key@) {
            Some(FieldValue::Texts(list)) => Some(list),
            _ => None,
        },
{
    let array = document.get_array(key).ok()?;
    array.iter().map(|item| item.as_str().map(|text| text.to_string())).collect()
}

} // verus!
