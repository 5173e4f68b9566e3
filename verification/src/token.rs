//! The token manager: the only owner of the credential record. It hands out
//! the access token for request signing and applies the outcome of a token
//! exchange, overwriting the credential wholesale on success and leaving it
//! untouched on any failure.

use vstd::prelude::*;
use crate::json::parse_credential;
use crate::json::spec_credential_of;
use crate::model::Credential;
use crate::model::RefreshError;

verus! {

/// What the credential becomes after a token exchange: a successfully
/// parsed credential from a success status overwrites it; anything else
/// leaves it as it was.
pub open spec fn spec_refresh_transition(
    current: Credential,
    status: u16,
    parsed: Option<Credential>,
) -> Credential {
    match parsed {
        Some(fresh) => if status == 200 {
            fresh
        } else {
            current
        },
        None => current,
    }
}

pub struct TokenManager {
    cred: Credential,
}

impl TokenManager {
    /// The credential the manager currently holds.
    pub closed spec fn current(&self) -> Credential {
        self.cred
    }

    pub fn new(cred: Credential) -> (tm: TokenManager)
        ensures
            tm.current() == cred,
    {
        TokenManager { cred }
    }

    /// The access token with which outgoing requests are signed.
    pub fn load_headers_fragment(&self) -> (t: &String)
        ensures
            t == self.current().access_token,
    {
        &self.cred.access_token
    }

    /// The whole credential record, for persisting the store.
    pub fn credential(&self) -> (c: &Credential)
        ensures
            c == self.current(),
    {
        &self.cred
    }

    /// Applies a token exchange's outcome once its body has been read: an
    /// exchange that was answered with success and parsed overwrites the
    /// credential; any other outcome leaves the prior record untouched.
    pub fn apply_refresh_outcome(&mut self, status: u16, parsed: Option<Credential>) -> (r: Result<
        (),
        RefreshError,
    >)
        ensures
            final(self).current() == spec_refresh_transition(old(self).current(), status, parsed),
            r is Ok <==> (status == 200 && parsed is Some),
            status != 200 ==> r matches Err(RefreshError::Rejected),
            status == 200 && parsed is None ==> r matches Err(RefreshError::MalformedPayload),
    {
        if status != 200 {
            return Err(RefreshError::Rejected);
        }
        match parsed {
            Some(fresh) => {
                self.cred = fresh;
                Ok(())
            },
            None => Err(RefreshError::MalformedPayload),
        }
    }

    /// Applies the raw response of the token endpoint; the body is read by
    /// the JSON layer, and any response that is not a parsed success
    /// leaves the credential untouched.
    pub fn apply_refresh(&mut self, status: u16, body: &str) -> (r: Result<(), RefreshError>)
        ensures
            status != 200 ==> final(self).current() == old(self).current() && (r matches Err(
                RefreshError::Rejected,
            )),
            r is Err ==> final(self).current() == old(self).current(),
            r is Ok ==> status == 200,
            (status == 200 && spec_credential_of(body@) is Some) ==> (r is Ok
                && final(self).current() == spec_credential_of(body@)->0),
            (status == 200 && spec_credential_of(body@) is None) ==> ((r matches Err(
                RefreshError::MalformedPayload,
            )) && final(self).current() == old(self).current()),
    {
        if status != 200 {
            return self.apply_refresh_outcome(status, None);
        }
        let parsed = parse_credential(body);
        self.apply_refresh_outcome(status, parsed)
    }
}

} // verus!
