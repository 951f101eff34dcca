//! Normalized credentials and the session materializer.
//!
//! A remote call's outcome is normalized into a [`Credential`] — an empty
//! payload is a distinct, clearly labeled failure — and a credential is
//! materialized as the canonical set of named environment variables.

use vstd::prelude::*;

use crate::error::Error;
use crate::error::StsOperation;
use crate::region::Region;
use crate::region::spec_region_name;

verus! {

/// A normalized credential: key id, secret, and an optional session token.
#[derive(Debug, PartialEq, Eq)]
pub struct Credential {
    pub access_key_id: String,
    pub secret_access_key: String,
    pub session_token: Option<String>,
}

/// The mathematical model of a credential.
pub ghost struct CredentialModel {
    pub access_key_id: Seq<char>,
    pub secret_access_key: Seq<char>,
    pub session_token: Option<Seq<char>>,
}

impl View for Credential {
    type V = CredentialModel;

    open spec fn view(&self) -> CredentialModel {
        CredentialModel {
            access_key_id: self.access_key_id@,
            secret_access_key: self.secret_access_key@,
            session_token: self.session_token.deep_view(),
        }
    }
}

/// The credential payload of a session-token or role-assumption response.
#[derive(Debug, PartialEq, Eq)]
pub struct StsCredentials {
    pub access_key_id: String,
    pub secret_access_key: String,
    pub session_token: String,
}

/// A session-token or role-assumption response: the payload is optional on
/// the wire, and its absence is a failure of the service's contract.
#[derive(Debug, PartialEq, Eq)]
pub struct StsResponse {
    pub credentials: Option<StsCredentials>,
}

/// Normalizes a remote response: a response carrying a payload yields the
/// payload's triple (the token always present), and a response lacking one
/// fails with the empty-response error naming the operation — never a
/// zero-valued credential.
pub fn credential_from_response(resp: StsResponse, op: StsOperation) -> (r: Result<
    Credential,
    Error,
>)
    ensures
        resp.credentials is None <==> r is Err,
        r is Err ==> r->Err_0 == Error::EmptyResponse(op),
        resp.credentials matches Some(c) ==> (r matches Ok(cr) && cr@ == (CredentialModel {
            access_key_id: c.access_key_id@,
            secret_access_key: c.secret_access_key@,
            session_token: Some(c.session_token@),
        })),
{
    match resp.credentials {
        None => Err(Error::EmptyResponse(op)),
        Some(c) => Ok(
            Credential {
                access_key_id: c.access_key_id,
                secret_access_key: c.secret_access_key,
                session_token: Some(c.session_token),
            },
        ),
    }
}

/// The canonical variable set of a credential and an optional region: the
/// two key variables always; the session-token variable and a legacy alias
/// carrying the identical value only when a token is present; the
/// default-region variable only when a region was supplied.
pub open spec fn spec_vars(c: CredentialModel, region: Option<Region>) -> Seq<
    (Seq<char>, Seq<char>),
> {
    let base = seq![
        ("AWS_ACCESS_KEY_ID"@, c.access_key_id),
        ("AWS_SECRET_ACCESS_KEY"@, c.secret_access_key),
    ];
    let with_token = match c.session_token {
        Some(t) => base + seq![("AWS_SESSION_TOKEN"@, t), ("AWS_SECURITY_TOKEN"@, t)],
        None => base,
    };
    match region {
        Some(rg) => with_token + seq![("AWS_DEFAULT_REGION"@, spec_region_name(rg))],
        None => with_token,
    }
}

/// Materializes a credential and an optional region as named variables.
pub fn get_vars(creds: &Credential, region: Option<Region>) -> (r: Vec<(String, String)>)
    ensures
        r.deep_view() == spec_vars(creds@, region),
{
    let mut r: Vec<(String, String)> = Vec::new();
    r.push(("AWS_ACCESS_KEY_ID".to_owned(), creds.access_key_id.clone()));
    r.push(("AWS_SECRET_ACCESS_KEY".to_owned(), creds.secret_access_key.clone()));
    match &creds.session_token {
        Some(tok) => {
            r.push(("AWS_SESSION_TOKEN".to_owned(), tok.clone()));
            r.push(("AWS_SECURITY_TOKEN".to_owned(), tok.clone()));
        },
        None => {},
    }
    match region {
        Some(rg) => {
            r.push(("AWS_DEFAULT_REGION".to_owned(), rg.name()));
        },
        None => {},
    }
    proof {
        let d = r.deep_view();
        let expect = spec_vars(creds@, region);
        assert forall|k: int| 0 <= k < d.len() implies d[k] == expect[k] by {
            assert(d[k] == (r@[k].0@, r@[k].1@));
        }
        assert(d =~= expect);
    }
    r
}

/// Materializing a credential that carries a session token, together with a
/// region, yields exactly five variables: the two key variables, the session
/// token, a legacy alias carrying a value identical to the token's, and the
/// region.
pub proof fn lemma_materialized_env_shape(c: CredentialModel, rg: Region)
    requires
        c.session_token is Some,
    ensures
        spec_vars(c, Some(rg)).len() == 5,
        spec_vars(c, Some(rg))[0] == ("AWS_ACCESS_KEY_ID"@, c.access_key_id),
        spec_vars(c, Some(rg))[1] == ("AWS_SECRET_ACCESS_KEY"@, c.secret_access_key),
        spec_vars(c, Some(rg))[2] == ("AWS_SESSION_TOKEN"@, c.session_token->0),
        spec_vars(c, Some(rg))[3] == ("AWS_SECURITY_TOKEN"@, c.session_token->0),
        spec_vars(c, Some(rg))[2].1 == spec_vars(c, Some(rg))[3].1,
        spec_vars(c, Some(rg))[4] == ("AWS_DEFAULT_REGION"@, spec_region_name(rg)),
{
}

} // verus!
