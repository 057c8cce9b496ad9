//! Reading a server configuration shared as base64-encoded JSON text.
use vstd::prelude::*;

use crate::base64::{base64_decode, base64_decoded, sextet_value};
use crate::dialog::{ImportedFields, ImportedFieldsView};
use crate::model::opt_str_view;
use crate::text::{lemma_trim_padded, lemma_trim_unique, trim_of, trim_white_space, white_space};

verus! {

/// Name for the string that `serde_json` finds under `key` in the JSON
/// object that the bytes `doc` hold: `None` when the bytes are not JSON, the
/// value is not an object, or the member is absent or not a string.
pub uninterp spec fn json_text_member(doc: Seq<u8>, key: Seq<char>) -> Option<Seq<char>>;

/// Name for the boolean that `serde_json` finds under `key` in the JSON
/// object that the bytes `doc` hold: `None` when the bytes are not JSON, the
/// value is not an object, or the member is absent or not a boolean.
pub uninterp spec fn json_flag_member(doc: Seq<u8>, key: Seq<char>) -> Option<bool>;

/// Calls `serde_json::from_slice::<serde_json::Value>` on `doc` and, when it
/// succeeds, `serde_json::Value::get` with `key`; a string member comes back
/// in the first slot, a boolean member in the second. Trusted: what parsing
/// gives is named (`json_text_member`, `json_flag_member`), a function of the
/// bytes and the key alone; that a member is never both a string and a
/// boolean follows from the variants of `serde_json::Value`.
#[verifier::external_body]
fn json_member(doc: &[u8], key: &str) -> (m: (Option<String>, Option<bool>))
    ensures
        opt_str_view(m.0) == json_text_member(doc@, key@),
        m.1 == json_flag_member(doc@, key@),
        !(m.0 is Some && m.1 is Some),
{
    let value = serde_json::from_slice::<serde_json::Value>(doc).ok();
    match value.as_ref().and_then(|v| v.get(key)) {
        Some(serde_json::Value::String(s)) => (Some(s.clone()), None),
        Some(serde_json::Value::Bool(b)) => (None, Some(*b)),
        _ => (None, None),
    }
}

/// The fields that the JSON document `doc` sets, under the member names of
/// an exported configuration.
pub open spec fn fields_of_json(doc: Seq<u8>) -> ImportedFieldsView {
    ImportedFieldsView {
        name: json_text_member(doc, "name"@),
        server: json_text_member(doc, "server"@),
        auth_type: json_text_member(doc, "authType"@),
        username: json_text_member(doc, "username"@),
        password: json_text_member(doc, "password"@),
        issuer: json_text_member(doc, "issuer"@),
        client_id: json_text_member(doc, "clientId"@),
        client_secret: json_text_member(doc, "clientSecret"@),
        allow_insecure: json_flag_member(doc, "allowInsecure"@),
    }
}

/// What importing the text `t`, already trimmed, gives: `None` when it is
/// not base64, else the fields of the JSON document it encodes.
pub open spec fn import_of_trimmed(t: Seq<char>) -> Option<ImportedFieldsView> {
    match base64_decoded(t) {
        Some(doc) => Some(fields_of_json(doc)),
        None => None,
    }
}

/// Base64 text copied with white space around it (spaces, tabs, line
/// breaks) imports as the text alone.
pub proof fn lemma_import_ignores_surrounding_white_space(
    pre: Seq<char>,
    t: Seq<char>,
    post: Seq<char>,
)
    requires
        forall|k: int| 0 <= k < pre.len() ==> white_space(#[trigger] pre[k]),
        forall|k: int| 0 <= k < post.len() ==> white_space(#[trigger] post[k]),
        forall|k: int|
            0 <= k < t.len() ==> (#[trigger] sextet_value(t[k])) is Some || t[k] == '=',
    ensures
        forall|u: Seq<char>| trim_of(pre + t + post, u) ==> u == t,
        trim_of(pre + t + post, t),
{
    if t.len() > 0 {
        assert(sextet_value(t[0]) is Some || t[0] == '=');
        assert(sextet_value(t[t.len() - 1]) is Some || t[t.len() - 1] == '=');
    }
    lemma_trim_padded(pre, t, post);
}

fn text_member(doc: &[u8], key: &str) -> (r: Option<String>)
    ensures
        opt_str_view(r) == json_text_member(doc@, key@),
{
    json_member(doc, key).0
}

/// Reads the fields of a configuration from clipboard text: white space
/// around the text is dropped, the rest is decoded as base64, and the
/// decoded bytes are read as a JSON object. `None` when the text is not
/// base64; members that are absent or of another type leave their field
/// unset.
pub fn parse_import(text: &str) -> (r: Option<ImportedFields>)
    ensures
        exists|t: Seq<char>|
            trim_of(text@, t) && match r {
                Some(f) => import_of_trimmed(t) == Some(f@),
                None => import_of_trimmed(t) is None,
            },
        forall|t: Seq<char>|
            trim_of(text@, t) ==> match r {
                Some(f) => import_of_trimmed(t) == Some(f@),
                None => import_of_trimmed(t) is None,
            },
{
    let trimmed = trim_white_space(text);
    assert(trim_of(text@, trimmed@));
    proof {
        assert forall|t: Seq<char>| trim_of(text@, t) implies t == trimmed@ by {
            lemma_trim_unique(text@, t, trimmed@);
        }
    }
    match base64_decode(trimmed) {
        Err(()) => None,
        Ok(bytes) => {
            let doc = bytes.as_slice();
            let fields = ImportedFields {
                name: text_member(doc, "name"),
                server: text_member(doc, "server"),
                auth_type: text_member(doc, "authType"),
                username: text_member(doc, "username"),
                password: text_member(doc, "password"),
                issuer: text_member(doc, "issuer"),
                client_id: text_member(doc, "clientId"),
                client_secret: text_member(doc, "clientSecret"),
                allow_insecure: json_member(doc, "allowInsecure").1,
            };
            assert(fields@ == fields_of_json(bytes@));
            Some(fields)
        },
    }
}

} // verus!
