use vstd::prelude::*;

verus! {

#[verifier::external_type_specification]
#[verifier::external_body]
pub struct ExJsonError(serde_json::Error);

/// Why no identifier could be had from an object root.
#[derive(PartialEq, Eq, Structural, Clone, Copy, Debug)]
pub enum ObjectIdError {
    /// The snapshot does not show an object root.
    NotAnObjectRoot,
    /// The inventory document could not be read.
    Io,
    /// The inventory document is not valid JSON.
    MalformedDocument,
    /// The document has no top-level `"id"` string, or an empty one.
    MissingIdentifier,
}

/// What serde_json makes of `text` read as one JSON document: `None` where it refuses
/// the text; otherwise `Some(Some(s))` where the document is an object whose top-level
/// member `"id"` is the JSON string `s`, and `Some(None)` where it is anything else.
pub uninterp spec fn json_id_member(text: Seq<char>) -> Option<Option<Seq<char>>>;

pub open spec fn opt_view(o: Option<String>) -> Option<Seq<char>> {
    match o {
        Some(s) => Some(s@),
        None => None,
    }
}

pub open spec fn id_view(r: Result<String, ObjectIdError>) -> Result<Seq<char>, ObjectIdError> {
    match r {
        Ok(s) => Ok(s@),
        Err(e) => Err(e),
    }
}

/// Relies on `serde_json::from_str` into a `serde_json::Value`, and on `Value::get` with
/// the key `"id"`: parses the document and hands out its top-level `"id"` member where
/// that member is a string.
#[verifier::external_body]
fn parse_id_member(text: &str) -> (r: Result<Option<String>, serde_json::Error>)
    ensures
        r is Err <==> json_id_member(text@) is None,
        r matches Ok(m) ==> json_id_member(text@) == Some(opt_view(m)),
{
    match serde_json::from_str::<serde_json::Value>(text) {
        Ok(doc) => match doc.get("id") {
            Some(serde_json::Value::String(id)) => Ok(Some(id.clone())),
            _ => Ok(None),
        },
        Err(e) => Err(e),
    }
}

/// The identifier given the document's `"id"` member: the member unchanged where it is
/// a non-empty string, `MissingIdentifier` otherwise.
pub open spec fn identifier_from(member: Option<Seq<char>>) -> Result<Seq<char>, ObjectIdError> {
    match member {
        Some(id) => if id.len() > 0 {
            Ok(id)
        } else {
            Err(ObjectIdError::MissingIdentifier)
        },
        None => Err(ObjectIdError::MissingIdentifier),
    }
}

/// The identifier an inventory document with text `text` gives.
pub open spec fn document_identifier(text: Seq<char>) -> Result<Seq<char>, ObjectIdError> {
    match json_id_member(text) {
        Some(member) => identifier_from(member),
        None => Err(ObjectIdError::MalformedDocument),
    }
}

/// The identifier, given what the parsed document holds as its `"id"` string (`None`
/// where it holds none): that string unchanged where it is not empty.
pub fn identifier_from_member(member: Option<String>) -> (r: Result<String, ObjectIdError>)
    ensures
        id_view(r) == identifier_from(opt_view(member)),
{
    match member {
        Some(id) => if id.as_str().is_empty() {
            Err(ObjectIdError::MissingIdentifier)
        } else {
            Ok(id)
        },
        None => Err(ObjectIdError::MissingIdentifier),
    }
}

/// The identifier recorded in an inventory document: the top-level `"id"` string,
/// unchanged; `MalformedDocument` where the text is not JSON, `MissingIdentifier` where
/// there is no such string or it is empty.
pub fn document_id(text: &str) -> (r: Result<String, ObjectIdError>)
    ensures
        id_view(r) == document_identifier(text@),
{
    match parse_id_member(text) {
        Ok(member) => identifier_from_member(member),
        Err(_) => Err(ObjectIdError::MalformedDocument),
    }
}

} // verus!
