use crate::inventory::{id_view, ObjectIdError};
use vstd::prelude::*;

verus! {

/// The JSON string literal that serde_json writes for `s`: `s` between double quotes,
/// with quotes, backslashes and control characters escaped.
pub uninterp spec fn json_quoted(s: Seq<char>) -> Seq<char>;

/// The final component of a path, as `std::path::Path::file_name` reads it: `None` for a
/// path that ends in `..` or has no normal component.
pub uninterp spec fn path_file_name(path: Seq<char>) -> Option<Seq<char>>;

/// Relies on `serde_json::to_string` on a `str`: the JSON string literal for the text.
/// It writes into a `Vec<u8>`, which never fails, so the result is always `Ok`.
#[verifier::external_body]
fn json_string(s: &str) -> (r: Result<String, serde_json::Error>)
    ensures
        r is Ok,
        r matches Ok(t) ==> t@ == json_quoted(s@),
{
    serde_json::to_string(s)
}

/// Relies on `std::path::Path::file_name`: the final component of the path. A component
/// of a path made from a `str` is itself valid text, so the conversion back keeps it.
#[verifier::external_body]
fn file_name_of(path: &str) -> (r: Option<String>)
    ensures
        r matches Some(name) ==> path_file_name(path@) == Some(name@),
        r is None ==> path_file_name(path@) is None,
{
    match std::path::Path::new(path).file_name() {
        Some(name) => name.to_str().map(String::from),
        None => None,
    }
}

fn quoted(s: &str) -> (r: String)
    ensures
        r@ == json_quoted(s@),
{
    match json_string(s) {
        Ok(t) => t,
        Err(_) => String::new(),
    }
}

pub open spec fn str_opt(o: Option<&str>) -> Option<Seq<char>> {
    match o {
        Some(s) => Some(s@),
        None => None,
    }
}

pub open spec fn lookup_opt(o: Option<Result<String, ObjectIdError>>) -> Option<Result<Seq<char>, ObjectIdError>> {
    match o {
        Some(r) => Some(id_view(r)),
        None => None,
    }
}

/// The path a record shows: the canonical form where an absolute path is asked for and
/// one could be had, else the path as given.
pub open spec fn shown_path(path: Seq<char>, canonical: Option<Seq<char>>, absolute: bool) -> Seq<char> {
    match canonical {
        Some(c) if absolute => c,
        _ => path,
    }
}

/// The `"id"` member of a record, where an identifier is asked for: the identifier found,
/// or the empty string where the lookup failed.
pub open spec fn id_part(identifier: Option<Result<Seq<char>, ObjectIdError>>) -> Seq<char> {
    match identifier {
        Some(Ok(id)) => ",\"id\":"@ + json_quoted(id),
        Some(Err(_)) => ",\"id\":"@ + json_quoted(Seq::empty()),
        None => Seq::empty(),
    }
}

/// The `"key"` member of a record, where a key is asked for: the last component of the
/// path as given, or the empty string where it has none.
pub open spec fn key_part(path: Seq<char>, key: bool) -> Seq<char> {
    if !key {
        Seq::empty()
    } else {
        match path_file_name(path) {
            Some(name) => ",\"key\":"@ + json_quoted(name),
            None => ",\"key\":"@ + json_quoted(Seq::empty()),
        }
    }
}

/// The `"namespace"` member of a record, where one is given.
pub open spec fn namespace_part(namespace: Option<Seq<char>>) -> Seq<char> {
    match namespace {
        Some(ns) => ",\"namespace\":"@ + json_quoted(ns),
        None => Seq::empty(),
    }
}

/// The record of one object root: a JSON object whose members come in the fixed order
/// path, id, key, namespace, each present only where asked for but the path.
pub open spec fn record_text(
    path: Seq<char>,
    canonical: Option<Seq<char>>,
    absolute: bool,
    key: bool,
    identifier: Option<Result<Seq<char>, ObjectIdError>>,
    namespace: Option<Seq<char>>,
) -> Seq<char> {
    "{\"path\":"@ + json_quoted(shown_path(path, canonical, absolute)) + id_part(identifier)
        + key_part(path, key) + namespace_part(namespace) + "}"@
}

/// The JSON record of the object root at `path`. `canonical` is the path made absolute,
/// where that could be done, and is shown in place of `path` when `absolute` is set.
/// `identifier` is `None` where no identifier is asked for, else the outcome of the
/// lookup; a failed lookup gives an empty `"id"`, the record is still made. `key` asks
/// for the path's last component, and `namespace` is copied in where given.
pub fn object_to_json(
    path: &str,
    canonical: Option<&str>,
    absolute: bool,
    key: bool,
    identifier: Option<Result<String, ObjectIdError>>,
    namespace: Option<&str>,
) -> (r: String)
    ensures
        r@ == record_text(path@, str_opt(canonical), absolute, key, lookup_opt(identifier), str_opt(namespace)),
{
    let shown: &str = match canonical {
        Some(c) if absolute => c,
        _ => path,
    };
    let mut out = String::from_str("{\"path\":");
    out.append(quoted(shown).as_str());
    let ghost after_path = out@;
    match identifier {
        Some(found) => {
            let id = match found {
                Ok(id) => id,
                Err(_) => String::new(),
            };
            out.append(",\"id\":");
            out.append(quoted(id.as_str()).as_str());
        },
        None => {},
    }
    assert(out@ =~= after_path + id_part(lookup_opt(identifier)));
    let ghost after_id = out@;
    if key {
        let name = match file_name_of(path) {
            Some(name) => name,
            None => String::new(),
        };
        out.append(",\"key\":");
        out.append(quoted(name.as_str()).as_str());
    }
    assert(out@ =~= after_id + key_part(path@, key));
    let ghost after_key = out@;
    match namespace {
        Some(ns) => {
            out.append(",\"namespace\":");
            out.append(quoted(ns).as_str());
        },
        None => {},
    }
    assert(out@ =~= after_key + namespace_part(str_opt(namespace)));
    out.append("}");
    out
}

} // verus!
