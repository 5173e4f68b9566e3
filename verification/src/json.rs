//! Reading upstream JSON payloads. Each payload shape is parsed by
//! serde_json behind one trusted wrapper; what the parse yields is a
//! function of the text alone, so each result carries a name that the
//! wrapper's contract applies and that the callers' contracts are written
//! over. Mapping a listing's entries one by one is verified code.

use vstd::prelude::*;
use crate::model::Credential;
use crate::model::Entry;

verus! {

/// The credential record that a piece of text holds: an object with the
/// string fields access_token and token_type and the integer field
/// expires_in, or nothing when the text is no such object.
pub uninterp spec fn spec_credential_of(s: Seq<char>) -> Option<Credential>;

/// Relies on serde_json::from_str and serde_json::Value::{get, as_str,
/// as_u64}: reads the three fields of a credential record, as the token
/// endpoint returns it and as the store persists it.
#[verifier::external_body]
pub(crate) fn parse_credential(body: &str) -> (r: Option<Credential>)
    ensures
        r == spec_credential_of(body@),
{
    let v: serde_json::Value = serde_json::from_str(body).ok()?;
    Some(Credential {
        access_token: v.get("access_token")?.as_str()?.to_owned(),
        token_type: v.get("token_type")?.as_str()?.to_owned(),
        expires_in: v.get("expires_in")?.as_u64()?,
    })
}

/// The listing entry that a piece of text holds: an object with the string
/// fields id, .tag, name and path_display, an optional integer size and an
/// optional string server_modified, or nothing when a required field is
/// missing or any field is of the wrong kind.
pub uninterp spec fn spec_entry_of(s: Seq<char>) -> Option<Entry>;

/// Relies on serde_json::from_str and serde_json::Value::{get, as_str,
/// as_u64, is_null}: shapes one raw listing entry into the service's
/// entry, with the provider's field names dropped or renamed.
#[verifier::external_body]
pub(crate) fn parse_entry(text: &str) -> (r: Option<Entry>)
    ensures
        r == spec_entry_of(text@),
{
    let v: serde_json::Value = serde_json::from_str(text).ok()?;
    Some(Entry {
        id: v.get("id")?.as_str()?.to_owned(),
        type_tag: v.get(".tag")?.as_str()?.to_owned(),
        name: v.get("name")?.as_str()?.to_owned(),
        size: match v.get("size") {
            Some(s) => if s.is_null() { None } else { Some(s.as_u64()? as u128) },
            None => None,
        },
        path: v.get("path_display")?.as_str()?.to_owned(),
        modified: match v.get("server_modified") {
            Some(m) => if m.is_null() { None } else { Some(m.as_str()?.to_owned()) },
            None => None,
        },
    })
}

/// The raw fields of the listing page that a piece of text holds: the
/// entries each as its own JSON text, the cursor and the more-flag, or
/// nothing when the text is no such object.
pub uninterp spec fn spec_page_fields_of(s: Seq<char>) -> Option<(Vec<String>, String, bool)>;

/// Relies on serde_json::from_str, serde_json::Value::{get, as_array,
/// as_str, as_bool} and serde_json::Value::to_string: splits a listing
/// response body into its raw entry texts, its cursor and its more-flag.
#[verifier::external_body]
pub(crate) fn parse_folder_fields(body: &str) -> (r: Option<(Vec<String>, String, bool)>)
    ensures
        r == spec_page_fields_of(body@),
{
    let v: serde_json::Value = serde_json::from_str(body).ok()?;
    let entries: Vec<String> =
        v.get("entries")?.as_array()?.iter().map(|e| e.to_string()).collect();
    let cursor = v.get("cursor")?.as_str()?.to_owned();
    let has_more = v.get("has_more")?.as_bool()?;
    Some((entries, cursor, has_more))
}

/// The filename that a download result metadata header value holds: the
/// name field of the JSON object the value carries, or nothing.
pub uninterp spec fn spec_result_name_of(s: Seq<char>) -> Option<String>;

/// Relies on serde_json::from_str and serde_json::Value::{get, as_str}:
/// the filename that the provider reports in its download result metadata
/// header, itself a small JSON document.
#[verifier::external_body]
pub(crate) fn api_result_name(value: &str) -> (r: Option<String>)
    ensures
        r == spec_result_name_of(value@),
{
    let v: serde_json::Value = serde_json::from_str(value).ok()?;
    Some(v.get("name")?.as_str()?.to_owned())
}

/// Every entry text of a page parses to an entry.
pub open spec fn spec_entries_parse(raw: Seq<String>) -> bool {
    forall|i: int| 0 <= i < raw.len() ==> spec_entry_of(raw[i]@) is Some
}

/// The entries of a page whose every entry text parses.
pub open spec fn spec_parsed_entries(raw: Seq<String>) -> Seq<Entry> {
    Seq::new(raw.len(), |i: int| spec_entry_of(raw[i]@)->0)
}

/// Shapes every raw entry text of a listing; fails exactly when one of
/// them does not parse. A successful result holds exactly the parse of
/// each reported entry, in order, and so exactly as many entries as the
/// upstream payload reported.
pub fn parse_entries(raw: &Vec<String>) -> (r: Option<Vec<Entry>>)
    ensures
        r is Some <==> spec_entries_parse(raw@),
        r matches Some(es) ==> es@ == spec_parsed_entries(raw@),
{
    let mut out: Vec<Entry> = Vec::new();
    let mut i: usize = 0;
    while i < raw.len()
        invariant
            i <= raw@.len(),
            out@.len() == i as nat,
            forall|j: int| 0 <= j < i ==> spec_entry_of(raw@[j]@) is Some,
            forall|j: int| 0 <= j < i ==> out@[j] == spec_entry_of(raw@[j]@)->0,
        decreases raw@.len() - i,
    {
        match parse_entry(raw[i].as_str()) {
            Some(e) => out.push(e),
            None => {
                return None;
            },
        }
        i += 1;
    }
    proof {
        assert(out@ =~= spec_parsed_entries(raw@));
    }
    Some(out)
}

} // verus!
