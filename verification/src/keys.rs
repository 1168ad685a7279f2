//! Where definitions are published: the object that names the current
//! revision, and the object of each application's definition in a revision.
use crate::text::{trim_end, trim_end_of};
use vstd::prelude::*;
use vstd::string::*;
use vstd::utf8::*;

verus! {

/// The key of the object that names the current revision.
pub open spec fn current_key_spec(prefix: Seq<char>) -> Seq<char> {
    prefix + "/current"@
}

/// The key of the definition of `app_id` in revision `revision`.
pub open spec fn definition_key_spec(prefix: Seq<char>, revision: Seq<char>, app_id: Seq<char>) -> Seq<
    char,
> {
    prefix + "/"@ + revision + "/"@ + app_id + ".json"@
}

/// The URL of an object, as it appears in messages.
pub open spec fn object_url_spec(bucket: Seq<char>, key: Seq<char>) -> Seq<char> {
    "s3://"@ + bucket + "/"@ + key
}

/// The contents of the object that names the current revision: the
/// revision and a line feed, in UTF-8.
pub open spec fn current_object_body_spec(revision: Seq<char>) -> Seq<u8> {
    encode_utf8(revision + "\n"@)
}

/// The revision named by the contents `body` of the current object: the text
/// without its trailing white space, or `None` when it is not UTF-8.
pub open spec fn current_revision_spec(body: Seq<u8>) -> Option<Seq<char>> {
    if valid_utf8(body) {
        Some(trim_end(decode_utf8(body)))
    } else {
        None
    }
}

/// The key of the object that names the current revision.
pub fn current_key(prefix: &str) -> (r: String)
    ensures
        r@ == current_key_spec(prefix@),
{
    let mut k = prefix.to_owned();
    k.append("/current");
    k
}

/// The key of the definition of `app_id` in revision `revision`.
pub fn definition_key(prefix: &str, revision: &str, app_id: &str) -> (r: String)
    ensures
        r@ == definition_key_spec(prefix@, revision@, app_id@),
{
    let mut k = prefix.to_owned();
    k.append("/");
    k.append(revision);
    k.append("/");
    k.append(app_id);
    k.append(".json");
    k
}

/// The URL of an object, as it appears in messages.
pub fn object_url(bucket: &str, key: &str) -> (r: String)
    ensures
        r@ == object_url_spec(bucket@, key@),
{
    let mut u = String::from_str("s3://");
    u.append(bucket);
    u.append("/");
    u.append(key);
    u
}

/// The contents of the object that names the current revision.
pub fn current_object_body(revision: &str) -> (r: Vec<u8>)
    ensures
        r@ == current_object_body_spec(revision@),
{
    let mut text = revision.to_owned();
    text.append("\n");
    text.as_str().as_bytes_vec()
}

/// Decodes UTF-8 with `String::from_utf8`, which fails exactly on byte
/// sequences that are not well-formed UTF-8 and otherwise holds the decoded
/// characters.
#[verifier::external_body]
fn decode_utf8_text(bytes: &[u8]) -> (r: Option<String>)
    ensures
        r is Some <==> valid_utf8(bytes@),
        r matches Some(s) ==> s@ == decode_utf8(bytes@),
{
    String::from_utf8(bytes.to_vec()).ok()
}

/// The revision named by the contents of the current object, or `None` when
/// they are not UTF-8.
pub fn current_revision(body: &[u8]) -> (r: Option<String>)
    ensures
        match r {
            Some(s) => current_revision_spec(body@) == Some(s@),
            None => current_revision_spec(body@) is None,
        },
{
    match decode_utf8_text(body) {
        Some(text) => Some(trim_end_of(text.as_str())),
        None => None,
    }
}

} // verus!
