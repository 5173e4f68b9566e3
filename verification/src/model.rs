//! The service's own data shapes: the stored credential, one listing entry,
//! one page of a folder listing, and the failure taxonomy every upstream
//! call reduces to.

use vstd::prelude::*;

verus! {

/// The most recently obtained access token with its metadata. Validity is
/// discovered reactively through an unauthorized upstream response; no
/// expiry timestamp is checked proactively.
#[derive(Debug, Clone, PartialEq, Eq)]
pub struct Credential {
    pub access_token: String,
    pub token_type: String,
    pub expires_in: u64,
}

/// One file-system object reported by the provider's listing API.
#[derive(Debug, Clone, PartialEq, Eq)]
pub struct Entry {
    pub id: String,
    pub type_tag: String,
    pub name: String,
    pub size: Option<u128>,
    pub path: String,
    pub modified: Option<String>,
}

impl Entry {
    /// The fields every entry must carry are non-empty.
    pub open spec fn wf(&self) -> bool {
        self.id@.len() > 0 && self.type_tag@.len() > 0 && self.name@.len() > 0
            && self.path@.len() > 0
    }

    /// Decides well-formedness.
    pub fn check(&self) -> (r: bool)
        ensures
            r == self.wf(),
    {
        !self.id.as_str().is_empty() && !self.type_tag.as_str().is_empty()
            && !self.name.as_str().is_empty() && !self.path.as_str().is_empty()
    }
}

/// One page of a folder listing. The cursor is an opaque continuation token
/// handed back verbatim to fetch the next page.
#[derive(Debug, Clone, PartialEq, Eq)]
pub struct FolderPage {
    pub entries: Vec<Entry>,
    pub cursor: String,
    pub has_more: bool,
}

impl FolderPage {
    /// Every entry is well-formed, and a page that announces more entries
    /// carries a non-empty continuation cursor.
    pub open spec fn wf(&self) -> bool {
        (forall|i: int| 0 <= i < self.entries@.len() ==> self.entries@[i].wf()) && (self.has_more
            ==> self.cursor@.len() > 0)
    }
}

/// How a failed per-request operation is reported to the route layer.
#[derive(Debug, Clone, PartialEq, Eq)]
pub enum ApiError {
    /// The credential store could not be read or parsed.
    CredentialStoreUnavailable,
    /// The provider rejected the current credential; the payload is carried.
    AuthExpired(String),
    /// Any other non-success upstream status; the payload is carried.
    UpstreamRejected(String),
    /// The upstream body or headers did not match the expected shape.
    MalformedUpstreamPayload,
    /// The call never produced an upstream response.
    TransportFailure,
}

/// Why a credential refresh failed.
#[derive(Debug, Clone, PartialEq, Eq)]
pub enum RefreshError {
    /// The token endpoint answered with a non-success status.
    Rejected,
    /// The token endpoint's body did not hold a credential.
    MalformedPayload,
}

/// Shapes parsed upstream listing fields into a folder page, rejecting a
/// payload whose entries lack a required field or that announces more
/// entries without a usable cursor.
pub fn normalize_folder(entries: Vec<Entry>, cursor: String, has_more: bool) -> (r: Result<
    FolderPage,
    ApiError,
>)
    ensures
        r is Ok <==> ((forall|i: int| 0 <= i < entries@.len() ==> entries@[i].wf()) && (has_more
            ==> cursor@.len() > 0)),
        r matches Ok(p) ==> p.entries@ == entries@ && p.cursor@ == cursor@ && p.has_more
            == has_more && p.wf(),
        r matches Err(e) ==> e is MalformedUpstreamPayload,
{
    let n = entries.len();
    let mut i: usize = 0;
    while i < n
        invariant
            n == entries@.len(),
            i <= n,
            forall|j: int| 0 <= j < i ==> entries@[j].wf(),
        decreases n - i,
    {
        if !entries[i].check() {
            return Err(ApiError::MalformedUpstreamPayload);
        }
        i += 1;
    }
    if has_more && cursor.as_str().is_empty() {
        return Err(ApiError::MalformedUpstreamPayload);
    }
    Ok(FolderPage { entries, cursor, has_more })
}

} // verus!
