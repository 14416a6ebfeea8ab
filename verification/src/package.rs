//! Putting a project's name, author and description into its `package.json`.
//!
//! The document is read, changed and written by `serde_json`. What that
//! crate makes of a text and of a document has a name here; what is proved is
//! which text is read, which members are set, and which document is written.

use vstd::prelude::*;
use crate::config::{ProjectConfig, ProjectConfigView};
use crate::error::{Error, ErrorView};

verus! {

/// A JSON document of `serde_json`. Nothing of its inside is visible here.
#[verifier::external_type_specification]
#[verifier::external_body]
pub struct ExValue(serde_json::Value);

/// Whether the document is a JSON object.
pub uninterp spec fn json_is_object(doc: serde_json::Value) -> bool;

/// The members of the document whose values are strings, by their keys.
pub uninterp spec fn json_strings(doc: serde_json::Value) -> Map<Seq<char>, Seq<char>>;

/// The members of the document, by their keys: none where the document is
/// no object.
pub uninterp spec fn json_members(doc: serde_json::Value) -> Map<Seq<char>, serde_json::Value>;

/// Whether `after` has every member that `before` has under a key outside
/// `keys`, with the value it has there, and has no other member under such a
/// key.
pub open spec fn others_kept(
    before: serde_json::Value,
    after: serde_json::Value,
    keys: Set<Seq<char>>,
) -> bool {
    forall|k: Seq<char>|
        !keys.contains(k) ==> (#[trigger] json_members(after).contains_key(k)
            == json_members(before).contains_key(k)) && (json_members(before).contains_key(k)
            ==> json_members(after)[k] == json_members(before)[k])
}

/// What `serde_json` reads from a text: the document, or in words why the
/// text is not JSON.
pub uninterp spec fn parsed_json(text: Seq<char>) -> Result<serde_json::Value, Seq<char>>;

/// What `serde_json` writes for a document, with indentation: the text, or in
/// words why the document cannot be written.
pub uninterp spec fn printed_json(doc: serde_json::Value) -> Result<Seq<char>, Seq<char>>;

/// `serde_json::from_str` at the type `serde_json::Value`, which reads a
/// document from text or says why the text is not JSON; it works on the text
/// alone. Believed, not proved: the result is what `parsed_json` stands for.
/// The crate's error is handed on in words.
#[verifier::external_body]
fn parse_document(text: &str) -> (r: Result<serde_json::Value, String>)
    ensures
        match parsed_json(text@) {
            Ok(doc) => r is Ok && r->Ok_0 == doc,
            Err(cause) => r is Err && r->Err_0@ == cause,
        },
{
    match serde_json::from_str::<serde_json::Value>(text) {
        Ok(doc) => Ok(doc),
        Err(e) => Err(e.to_string()),
    }
}

/// `serde_json::Value::is_object`, which tells whether a document is an
/// object. Believed, not proved: the result is what `json_is_object` stands
/// for.
#[verifier::external_body]
fn is_object(doc: &serde_json::Value) -> (r: bool)
    ensures
        r == json_is_object(*doc),
{
    doc.is_object()
}

/// `serde_json::Map::insert` on the members of an object, with a string as
/// the value: the key is bound to the value, whether or not it was bound
/// before, and nothing else changes. Believed, not proved: the document is
/// still an object; its string members are those it had, with `key` bound to
/// `value`; it has a member under `key`; and every member under another key
/// is as it was.
#[verifier::external_body]
fn set_string(doc: &mut serde_json::Value, key: &str, value: &str)
    requires
        json_is_object(*old(doc)),
    ensures
        json_is_object(*final(doc)),
        json_strings(*final(doc)) == json_strings(*old(doc)).insert(key@, value@),
        json_members(*final(doc)).contains_key(key@),
        others_kept(*old(doc), *final(doc), set![key@]),
{
    if let Some(members) = doc.as_object_mut() {
        members.insert(key.to_string(), serde_json::Value::String(value.to_string()));
    }
}

/// `serde_json::to_string_pretty`, which writes a document as indented text,
/// or says why it cannot; it works on the document alone. Believed, not
/// proved: the result is what `printed_json` stands for. The crate's error is
/// handed on in words.
#[verifier::external_body]
fn print_document(doc: &serde_json::Value) -> (r: Result<String, String>)
    ensures
        match printed_json(*doc) {
            Ok(text) => r is Ok && r->Ok_0@ == text,
            Err(cause) => r is Err && r->Err_0@ == cause,
        },
{
    match serde_json::to_string_pretty(doc) {
        Ok(text) => Ok(text),
        Err(e) => Err(e.to_string()),
    }
}

/// The string members of a document after the project's name, author and
/// description have been set.
pub open spec fn with_project(
    members: Map<Seq<char>, Seq<char>>,
    name: Seq<char>,
    author: Seq<char>,
    description: Seq<char>,
) -> Map<Seq<char>, Seq<char>> {
    members.insert("name"@, name).insert("author"@, author).insert("description"@, description)
}

/// The keys of the members that hold the project's name, author and
/// description.
pub open spec fn project_keys() -> Set<Seq<char>> {
    set!["name"@, "author"@, "description"@]
}

/// Whether `after` is `before` with the project's name, author and
/// description set: an object has these three members set, has every other
/// member as it was, and is still an object; any other document is left as
/// it is.
pub open spec fn project_set(
    before: serde_json::Value,
    after: serde_json::Value,
    config: ProjectConfigView,
) -> bool {
    if json_is_object(before) {
        &&& json_is_object(after)
        &&& json_strings(after) == with_project(
            json_strings(before),
            config.name,
            config.author,
            config.description,
        )
        &&& forall|k: Seq<char>|
            project_keys().contains(k) ==> #[trigger] json_members(after).contains_key(k)
        &&& others_kept(before, after, project_keys())
    } else {
        after == before
    }
}

/// Whether `r` is what a document comes to when it is written: its text, or
/// an error that says why it cannot be written.
pub open spec fn written(doc: serde_json::Value, r: Result<String, Error>) -> bool {
    match printed_json(doc) {
        Ok(text) => r is Ok && r->Ok_0@ == text,
        Err(cause) => r is Err && r->Err_0@ == (ErrorView::ParseError { cause }),
    }
}

/// Sets the members `name`, `author` and `description` of a document that is
/// an object; any other document is left as it is.
pub fn set_project_fields(doc: &mut serde_json::Value, config: &ProjectConfig)
    ensures
        project_set(*old(doc), *final(doc), config@),
{
    if is_object(doc) {
        set_string(doc, "name", config.name.as_str());
        set_string(doc, "author", config.author.as_str());
        set_string(doc, "description", config.description.as_str());
    }
}

/// The text of a `package.json` with the project's name, author and
/// description set. Text that is not JSON is refused with what the parser
/// says of it. Otherwise the document that the text holds is changed as
/// `project_set` says, and the result is that document written out, or the
/// reason why it cannot be written.
pub fn update_package_json(content: &str, config: &ProjectConfig) -> (r: Result<String, Error>)
    ensures
        match parsed_json(content@) {
            Err(cause) => r is Err && r->Err_0@ == (ErrorView::ParseError { cause }),
            Ok(doc) => exists|changed: serde_json::Value|
                #[trigger] project_set(doc, changed, config@) && written(changed, r),
        },
{
    let mut doc = match parse_document(content) {
        Ok(doc) => doc,
        Err(cause) => {
            return Err(Error::ParseError { cause });
        },
    };
    set_project_fields(&mut doc, config);
    match print_document(&doc) {
        Ok(text) => Ok(text),
        Err(cause) => Err(Error::ParseError { cause }),
    }
}

} // verus!
