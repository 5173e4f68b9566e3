//! The upstream client: classifies provider responses, interprets the four
//! supported operations, builds the signed header set, and prepares and
//! sanitizes the header sets of streamed downloads. The transport itself is
//! outside; these functions decide everything between receiving a status
//! with its payload and answering the route layer.

use vstd::prelude::*;
use crate::headers::Headers;
use crate::json::api_result_name;
use crate::json::parse_entries;
use crate::json::parse_folder_fields;
use crate::json::spec_entries_parse;
use crate::json::spec_page_fields_of;
use crate::json::spec_parsed_entries;
use crate::json::spec_result_name_of;
use crate::model::ApiError;
use crate::model::FolderPage;
use crate::model::normalize_folder;
use crate::text::spec_api_arg;
use crate::text::spec_bearer;
use crate::text::spec_disposition;
use crate::text::spec_path_root;
use crate::text::api_arg_value;
use crate::text::bearer_value;
use crate::text::disposition_value;
use crate::text::path_root_value;

verus! {

/// What an upstream status means for the in-flight call.
pub enum Classification {
    /// The provider answered the request.
    Success,
    /// The provider rejected the credential; a refresh is owed.
    AuthExpired,
    /// Any other failure; the payload is passed through.
    OtherFailure,
}

/// Status 200 is success, 401 is a rejected credential, anything else is
/// some other failure.
pub open spec fn spec_classify(status: u16) -> Classification {
    if status == 200 {
        Classification::Success
    } else if status == 401 {
        Classification::AuthExpired
    } else {
        Classification::OtherFailure
    }
}

pub fn classify_status(status: u16) -> (r: Classification)
    ensures
        r == spec_classify(status),
{
    if status == 200 {
        Classification::Success
    } else if status == 401 {
        Classification::AuthExpired
    } else {
        Classification::OtherFailure
    }
}

/// The provider-required header set for an outgoing call: bearer
/// authorization, fixed content type, and the two routing headers.
pub open spec fn spec_signed_headers(
    token: Seq<char>,
    namespace_id: Seq<char>,
    member_id: Seq<char>,
) -> Map<Seq<char>, Seq<char>> {
    Map::<Seq<char>, Seq<char>>::empty().insert("authorization"@, spec_bearer(token)).insert(
        "content-type"@,
        "application/json"@,
    ).insert("dropbox-api-path-root"@, spec_path_root(namespace_id)).insert(
        "dropbox-api-select-user"@,
        member_id,
    )
}

/// Builds the signed header set from the current access token and the two
/// statically configured routing identifiers. Rebuilt per request, never
/// cached, so a refresh in between is honoured.
pub fn build_headers(access_token: &str, namespace_id: &str, member_id: &str) -> (r: Headers)
    ensures
        r.wf(),
        r@ == spec_signed_headers(access_token@, namespace_id@, member_id@),
{
    let mut h = Headers::new();
    h.insert("authorization", bearer_value(access_token));
    h.insert("content-type", String::from_str("application/json"));
    h.insert("dropbox-api-path-root", path_root_value(namespace_id));
    h.insert("dropbox-api-select-user", String::from_str(member_id));
    h
}

/// Interprets the upstream response to a folder-listing request. The second
/// component says whether the caller owes a credential refresh before it
/// reports the failure; it is set exactly when the credential was rejected.
pub fn list_folder(status: u16, body: &str) -> (r: (Result<FolderPage, ApiError>, bool))
    ensures
        r.1 == (spec_classify(status) is AuthExpired),
        spec_classify(status) is AuthExpired ==> (r.0 matches Err(e) && (e matches
            ApiError::AuthExpired(b) && b@ == body@)),
        spec_classify(status) is OtherFailure ==> (r.0 matches Err(e) && (e matches
            ApiError::UpstreamRejected(b) && b@ == body@)),
        r.0 is Ok ==> spec_classify(status) is Success,
        spec_classify(status) is Success ==> (r.0 is Ok || (r.0 matches Err(e) && e is
            MalformedUpstreamPayload)),
        r.0 matches Ok(p) ==> p.wf(),
        (spec_classify(status) is Success && spec_page_fields_of(body@) is None) ==> (r.0 matches
            Err(e) && e is MalformedUpstreamPayload),
        (spec_classify(status) is Success && spec_page_fields_of(body@) is Some) ==> ({
            let q = spec_page_fields_of(body@)->0;
            &&& (!spec_entries_parse(q.0@) ==> (r.0 matches Err(e) && e
                is MalformedUpstreamPayload))
            &&& (spec_entries_parse(q.0@) ==> {
                let es = spec_parsed_entries(q.0@);
                &&& (r.0 is Ok <==> ((forall|i: int| 0 <= i < es.len() ==> es[i].wf()) && (q.2
                    ==> q.1@.len() > 0)))
                &&& (r.0 matches Ok(p) ==> p.entries@ == es && p.cursor@ == q.1@ && p.has_more
                    == q.2)
            })
        }),
{
    match classify_status(status) {
        Classification::AuthExpired => (Err(ApiError::AuthExpired(String::from_str(body))), true),
        Classification::OtherFailure => (
            Err(ApiError::UpstreamRejected(String::from_str(body))),
            false,
        ),
        Classification::Success => {
            match parse_folder_fields(body) {
                None => (Err(ApiError::MalformedUpstreamPayload), false),
                Some((raw, cursor, has_more)) => {
                    match parse_entries(&raw) {
                        None => (Err(ApiError::MalformedUpstreamPayload), false),
                        Some(entries) => (normalize_folder(entries, cursor, has_more), false),
                    }
                },
            }
        },
    }
}

/// Interprets the upstream response to a listing continuation. The response
/// shape and its handling are those of the folder listing.
pub fn list_folder_continue(status: u16, body: &str) -> (r: (Result<FolderPage, ApiError>, bool))
    ensures
        r.1 == (spec_classify(status) is AuthExpired),
        spec_classify(status) is AuthExpired ==> (r.0 matches Err(e) && (e matches
            ApiError::AuthExpired(b) && b@ == body@)),
        spec_classify(status) is OtherFailure ==> (r.0 matches Err(e) && (e matches
            ApiError::UpstreamRejected(b) && b@ == body@)),
        r.0 is Ok ==> spec_classify(status) is Success,
        spec_classify(status) is Success ==> (r.0 is Ok || (r.0 matches Err(e) && e is
            MalformedUpstreamPayload)),
        r.0 matches Ok(p) ==> p.wf(),
        (spec_classify(status) is Success && spec_page_fields_of(body@) is None) ==> (r.0 matches
            Err(e) && e is MalformedUpstreamPayload),
        (spec_classify(status) is Success && spec_page_fields_of(body@) is Some) ==> ({
            let q = spec_page_fields_of(body@)->0;
            &&& (!spec_entries_parse(q.0@) ==> (r.0 matches Err(e) && e
                is MalformedUpstreamPayload))
            &&& (spec_entries_parse(q.0@) ==> {
                let es = spec_parsed_entries(q.0@);
                &&& (r.0 is Ok <==> ((forall|i: int| 0 <= i < es.len() ==> es[i].wf()) && (q.2
                    ==> q.1@.len() > 0)))
                &&& (r.0 matches Ok(p) ==> p.entries@ == es && p.cursor@ == q.1@ && p.has_more
                    == q.2)
            })
        }),
{
    list_folder(status, body)
}

/// The upstream-internal response headers that are never relayed.
pub open spec fn is_stripped_name(n: Seq<char>) -> bool {
    ||| n == "etag"@
    ||| n == "dropbox-api-result"@
    ||| n == "content-security-policy"@
    ||| n == "x-dropbox-request-id"@
    ||| n == "x-server-response-time"@
    ||| n == "strict-transport-security"@
    ||| n == "x-dropbox-response-origin"@
}

/// A header set with the seven upstream-internal headers taken out.
pub open spec fn spec_strip(m: Map<Seq<char>, Seq<char>>) -> Map<Seq<char>, Seq<char>> {
    m.remove("etag"@).remove("dropbox-api-result"@).remove("content-security-policy"@).remove(
        "x-dropbox-request-id"@,
    ).remove("x-server-response-time"@).remove("strict-transport-security"@).remove(
        "x-dropbox-response-origin"@,
    )
}

/// The relayed header set of a download: the provider-reported filename
/// becomes the disposition header when one is given, and the seven
/// upstream-internal headers are taken out.
pub open spec fn spec_sanitize(m: Map<Seq<char>, Seq<char>>, name: Option<Seq<char>>) -> Map<
    Seq<char>,
    Seq<char>,
> {
    match name {
        Some(n) => spec_strip(m.insert("content-disposition"@, spec_disposition(n))),
        None => spec_strip(m),
    }
}

/// Produces the header set relayed with a download's byte stream: a new
/// set, leaving the upstream one untouched.
pub fn sanitize_download_headers(upstream: &Headers, filename: Option<&str>) -> (r: Headers)
    requires
        upstream.wf(),
    ensures
        r.wf(),
        filename matches Some(n) ==> r@ == spec_sanitize(upstream@, Some(n@)),
        filename is None ==> r@ == spec_sanitize(upstream@, Option::<Seq<char>>::None),
{
    let mut h = upstream.duplicate();
    match filename {
        Some(n) => {
            let d = disposition_value(n);
            h.insert("content-disposition", d);
        },
        None => {},
    }
    h.remove("etag");
    h.remove("dropbox-api-result");
    h.remove("content-security-policy");
    h.remove("x-dropbox-request-id");
    h.remove("x-server-response-time");
    h.remove("strict-transport-security");
    h.remove("x-dropbox-response-origin");
    h
}

/// The header set of an outgoing download request: the caller's inbound
/// headers merged with the signed set (the signed set winning), the
/// path-carrying argument header added, and the content-type and host
/// headers taken out, as a binary fetch wants neither. A new set is
/// produced; the caller's own set is never mutated.
pub open spec fn spec_prepare(
    inbound: Map<Seq<char>, Seq<char>>,
    signed: Map<Seq<char>, Seq<char>>,
    path: Seq<char>,
) -> Map<Seq<char>, Seq<char>> {
    inbound.union_prefer_right(signed).insert("dropbox-api-arg"@, spec_api_arg(path)).remove(
        "content-type"@,
    ).remove("host"@)
}

pub fn prepare_download_headers(inbound: &Headers, signed: &Headers, path: &str) -> (r: Headers)
    requires
        inbound.wf(),
        signed.wf(),
    ensures
        r.wf(),
        r@ == spec_prepare(inbound@, signed@, path@),
{
    let mut h = inbound.duplicate();
    h.merge_from(signed);
    let arg = api_arg_value(path);
    h.insert("dropbox-api-arg", arg);
    h.remove("content-type");
    h.remove("host");
    h
}

/// Interprets the upstream response to a single-file download. On success
/// the provider's result metadata header must name the file; the relayed
/// header set then reports that name as an attachment and omits the seven
/// upstream-internal headers.
pub fn download_file(status: u16, upstream: &Headers, error_body: &str) -> (r: (Result<
    Headers,
    ApiError,
>, bool))
    requires
        upstream.wf(),
    ensures
        r.1 == (spec_classify(status) is AuthExpired),
        spec_classify(status) is AuthExpired ==> (r.0 matches Err(e) && (e matches
            ApiError::AuthExpired(b) && b@ == error_body@)),
        spec_classify(status) is OtherFailure ==> (r.0 matches Err(e) && (e matches
            ApiError::UpstreamRejected(b) && b@ == error_body@)),
        r.0 is Ok ==> spec_classify(status) is Success,
        spec_classify(status) is Success ==> (r.0 is Ok || (r.0 matches Err(e) && e is
            MalformedUpstreamPayload)),
        r.0 matches Ok(h) ==> (h.wf() && (forall|k: Seq<char>|
            is_stripped_name(k) ==> !h@.dom().contains(k)) && h@.dom().contains(
            "content-disposition"@,
        )),
        (spec_classify(status) is Success && !upstream@.dom().contains("dropbox-api-result"@))
            ==> (r.0 matches Err(e) && e is MalformedUpstreamPayload),
        (spec_classify(status) is Success && upstream@.dom().contains("dropbox-api-result"@))
            ==> ({
            let v = upstream@["dropbox-api-result"@];
            &&& (spec_result_name_of(v) is Some ==> (r.0 matches Ok(h) && h@ == spec_sanitize(
                upstream@,
                Some(spec_result_name_of(v)->0@),
            )))
            &&& (spec_result_name_of(v) is None ==> (r.0 matches Err(e) && e
                is MalformedUpstreamPayload))
        }),
{
    match classify_status(status) {
        Classification::AuthExpired => (
            Err(ApiError::AuthExpired(String::from_str(error_body))),
            true,
        ),
        Classification::OtherFailure => (
            Err(ApiError::UpstreamRejected(String::from_str(error_body))),
            false,
        ),
        Classification::Success => {
            let raw = match upstream.get("dropbox-api-result") {
                Some(v) => v,
                None => { return (Err(ApiError::MalformedUpstreamPayload), false) },
            };
            let name = match api_result_name(raw.as_str()) {
                Some(n) => n,
                None => { return (Err(ApiError::MalformedUpstreamPayload), false) },
            };
            let sanitized = sanitize_download_headers(upstream, Some(name.as_str()));
            proof {
                assert(sanitized@ == spec_sanitize(upstream@, Some(name@)));
                crate::laws::lemma_sanitize_headers(upstream@, Some(name@));
            }
            (Ok(sanitized), false)
        },
    }
}

/// Interprets the upstream response to a folder-archive download: the flow
/// of the single-file download, except that the provider supplies the
/// archive's own disposition, so no filename is rewritten.
pub fn download_zip(status: u16, upstream: &Headers, error_body: &str) -> (r: (Result<
    Headers,
    ApiError,
>, bool))
    requires
        upstream.wf(),
    ensures
        r.1 == (spec_classify(status) is AuthExpired),
        spec_classify(status) is AuthExpired ==> (r.0 matches Err(e) && (e matches
            ApiError::AuthExpired(b) && b@ == error_body@)),
        spec_classify(status) is OtherFailure ==> (r.0 matches Err(e) && (e matches
            ApiError::UpstreamRejected(b) && b@ == error_body@)),
        spec_classify(status) is Success <==> (r.0 matches Ok(h) && h.wf() && h@ == spec_sanitize(
            upstream@,
            Option::<Seq<char>>::None,
        )),
        r.0 matches Ok(h) ==> (forall|k: Seq<char>| is_stripped_name(k) ==> !h@.dom().contains(k)),
{
    match classify_status(status) {
        Classification::AuthExpired => (
            Err(ApiError::AuthExpired(String::from_str(error_body))),
            true,
        ),
        Classification::OtherFailure => (
            Err(ApiError::UpstreamRejected(String::from_str(error_body))),
            false,
        ),
        Classification::Success => {
            let sanitized = sanitize_download_headers(upstream, None);
            proof {
                crate::laws::lemma_sanitize_headers(upstream@, Option::<Seq<char>>::None);
            }
            (Ok(sanitized), false)
        },
    }
}

} // verus!
