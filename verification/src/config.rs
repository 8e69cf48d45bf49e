//! The configuration file: one JSON object that names the client secret file.
//!
//! Reading and writing the file is the caller's; here its text is read and made.

use crate::error::ErrorView;
use crate::error::GsheetError;
use vstd::prelude::*;

verus! {

/// The configuration file, in the working directory.
pub const CONFIG_FILE: &'static str = "gsheet_config.json";

/// The member of the configuration that holds the path of the client secret file.
pub const SECRET_PATH_KEY: &'static str = "client_secret_path";

/// `serde_json::Error`, which says why a text is no JSON document.
#[verifier::external_type_specification]
#[verifier::external_body]
pub struct ExJsonError(serde_json::Error);

/// What `serde_json` finds under `key` in the text `text`: `None` where it
/// does not accept `text` as a JSON document; `Some(None)` where the
/// document is no object, has no member `key`, or has one that is no string;
/// the string otherwise.
pub uninterp spec fn json_string_member(text: Seq<char>, key: Seq<char>) -> Option<
    Option<Seq<char>>,
>;

/// The JSON text that `serde_json` writes for the object whose one member
/// `key` is the string `value`.
pub uninterp spec fn json_object_text(key: Seq<char>, value: Seq<char>) -> Seq<char>;

/// `serde_json::from_str` to a `serde_json::Value`, then the value's index by
/// `key` and `as_str` of what is found there. The error is that of
/// `from_str`; indexing gives null where the document is no object or has no
/// such member, and `as_str` gives nothing for what is no string. The
/// contract names the outcome and says nothing more of it.
#[verifier::external_body]
fn string_member(text: &str, key: &str) -> (found: Result<Option<String>, serde_json::Error>)
    ensures
        json_string_member(text@, key@) == match found {
            Ok(member) => Some(member.deep_view()),
            Err(_) => None,
        },
{
    let document: serde_json::Value = serde_json::from_str(text)?;
    Ok(document[key].as_str().map(String::from))
}

/// `serde_json::Map::new` and `insert` of the one member, a
/// `serde_json::Value::String`, then the compact text of the object, as
/// `Display` for `serde_json::Value` writes it. The contract names the text
/// and says nothing more of it.
#[verifier::external_body]
fn object_text(key: &str, value: &str) -> (text: String)
    ensures
        text@ == json_object_text(key@, value@),
{
    let mut members = serde_json::Map::new();
    members.insert(String::from(key), serde_json::Value::String(String::from(value)));
    serde_json::Value::Object(members).to_string()
}

/// What a lookup in a JSON text came to, as a mathematical value. Why a text
/// was not accepted is left out: the reason is the outside crate's, and
/// every such text is malformed alike.
pub open spec fn lookup_view(lookup: Result<Option<String>, serde_json::Error>) -> Option<
    Option<Seq<char>>,
> {
    match lookup {
        Ok(member) => Some(member.deep_view()),
        Err(_) => None,
    }
}

/// A path or a failure, as a mathematical value.
pub open spec fn path_view(path: Result<String, GsheetError>) -> Result<Seq<char>, ErrorView> {
    match path {
        Ok(path) => Ok(path@),
        Err(error) => Err(error@),
    }
}

/// The client secret path that a lookup of `SECRET_PATH_KEY` yields: the
/// string found. A text that is no JSON document and a document without
/// that string are both malformed configurations.
pub open spec fn secret_path_of(member: Option<Option<Seq<char>>>) -> Result<Seq<char>, ErrorView> {
    match member {
        Some(Some(path)) => Ok(path),
        _ => Err(ErrorView::ConfigMalformed),
    }
}

/// The client secret path that the configuration names, `content` being the
/// text of the configuration file, or `None` where the file does not exist.
pub open spec fn configured_path(content: Option<Seq<char>>) -> Result<Seq<char>, ErrorView> {
    match content {
        None => Err(ErrorView::ConfigMissing),
        Some(text) => secret_path_of(json_string_member(text, SECRET_PATH_KEY@)),
    }
}

/// Turns the lookup of the client secret path into the path, or into the
/// failure that its absence amounts to.
pub fn secret_path_from(lookup: Result<Option<String>, serde_json::Error>) -> (path: Result<
    String,
    GsheetError,
>)
    ensures
        path_view(path) == secret_path_of(lookup_view(lookup)),
{
    match lookup {
        Ok(Some(path)) => Ok(path),
        Ok(None) => Err(GsheetError::ConfigMalformed),
        Err(_) => Err(GsheetError::ConfigMalformed),
    }
}

/// Reads the client secret path from the text of the configuration file;
/// `content` is `None` where the file does not exist. There is no default:
/// a missing file is `ConfigMissing`, and a text that is no JSON document or
/// holds no string under `client_secret_path` is `ConfigMalformed`.
pub fn get_client_secret_path(content: Option<&str>) -> (path: Result<String, GsheetError>)
    ensures
        path_view(path) == configured_path(
            match content {
                Some(text) => Some(text@),
                None => None,
            },
        ),
        content is None ==> path == Err::<String, GsheetError>(GsheetError::ConfigMissing),
{
    match content {
        None => Err(GsheetError::ConfigMissing),
        Some(text) => secret_path_from(string_member(text, SECRET_PATH_KEY)),
    }
}

/// Writes the text of a configuration file that names `client_secret_path`.
/// It replaces whatever the file held: nothing of an earlier configuration
/// is kept.
pub fn config_content(client_secret_path: &str) -> (text: String)
    ensures
        text@ == json_object_text(SECRET_PATH_KEY@, client_secret_path@),
{
    object_text(SECRET_PATH_KEY, client_secret_path)
}

} // verus!
