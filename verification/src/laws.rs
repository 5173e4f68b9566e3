//! The properties the library guarantees across its operations, stated and
//! proved over the same spec functions that the operations' own contracts
//! use.

use vstd::prelude::*;
use crate::dropbox::is_stripped_name;
use crate::dropbox::spec_classify;
use crate::dropbox::spec_sanitize;
use crate::model::Credential;
use crate::model::FolderPage;
use crate::text::spec_disposition;
use crate::token::spec_refresh_transition;

verus! {

/// Every entry of a well-formed listing page carries a non-empty
/// identifier, kind tag, name and display path.
pub proof fn lemma_page_entries_required_fields(p: FolderPage, i: int)
    requires
        p.wf(),
        0 <= i < p.entries@.len(),
    ensures
        p.entries@[i].id@.len() > 0,
        p.entries@[i].type_tag@.len() > 0,
        p.entries@[i].name@.len() > 0,
        p.entries@[i].path@.len() > 0,
{
}

/// While a listing page announces more entries, it carries a non-empty
/// continuation cursor for the next call.
pub proof fn lemma_more_implies_cursor(p: FolderPage)
    requires
        p.wf(),
        p.has_more,
    ensures
        p.cursor@.len() > 0,
{
}

/// The unauthorized status, and only it, is classified as an expired
/// credential, and such a response is never classified as success.
pub proof fn lemma_unauthorized_classification(status: u16)
    ensures
        (spec_classify(status) is AuthExpired) <==> status == 401,
        status == 401 ==> !(spec_classify(status) is Success),
{
}

/// A token exchange answered with success overwrites the stored
/// credential: what the manager hands out afterwards is the fresh record.
pub proof fn lemma_refresh_overwrites(current: Credential, fresh: Credential)
    ensures
        spec_refresh_transition(current, 200, Some(fresh)) == fresh,
{
}

/// A token exchange that was rejected, or whose body held no credential,
/// leaves the stored credential exactly as it was.
pub proof fn lemma_failed_refresh_keeps(
    current: Credential,
    status: u16,
    parsed: Option<Credential>,
)
    requires
        status != 200 || parsed is None,
    ensures
        spec_refresh_transition(current, status, parsed) == current,
{
}

/// Sanitizing a download's header set removes every one of the seven
/// upstream-internal headers, whatever set came in; every other header is
/// relayed unchanged; and when the provider reported a filename, the
/// relayed set announces it as an attachment.
pub proof fn lemma_sanitize_headers(m: Map<Seq<char>, Seq<char>>, name: Option<Seq<char>>)
    ensures
        forall|k: Seq<char>| is_stripped_name(k) ==> !spec_sanitize(m, name).dom().contains(k),
        name matches Some(n) ==> spec_sanitize(m, name).dom().contains("content-disposition"@)
            && spec_sanitize(m, name)["content-disposition"@] == spec_disposition(n),
        forall|k: Seq<char>|
            (!is_stripped_name(k) && k != "content-disposition"@ && m.dom().contains(k)) ==> (
            spec_sanitize(m, name).dom().contains(k) && spec_sanitize(m, name)[k] == m[k]),
{
    reveal_strlit("etag");
    reveal_strlit("dropbox-api-result");
    reveal_strlit("content-security-policy");
    reveal_strlit("x-dropbox-request-id");
    reveal_strlit("x-server-response-time");
    reveal_strlit("strict-transport-security");
    reveal_strlit("x-dropbox-response-origin");
    reveal_strlit("content-disposition");
    assert("content-disposition"@.len() == 19);
    assert("etag"@.len() == 4);
    assert("dropbox-api-result"@.len() == 18);
    assert("content-security-policy"@.len() == 23);
    assert("x-dropbox-request-id"@.len() == 20);
    assert("x-server-response-time"@.len() == 22);
    assert("strict-transport-security"@.len() == 25);
    assert("x-dropbox-response-origin"@.len() == 25);
}

} // verus!
