//! The per-request identity: an id and a privilege tier, derived from a
//! verified bearer token.
use vstd::prelude::*;
use jwt_simple::algorithms::HS256Key;
use jwt_simple::prelude::MACLike;
use crate::errors::Error;
use crate::models::Privileges;

verus! {

/// The name of the cookie that carries the bearer token.
pub const AUTH_COOKIE_KEY: &'static str = "AUTH_TOKEN";

/// The signing key type of the token scheme, taken from jwt_simple.
#[verifier::external_type_specification]
#[verifier::external_body]
pub struct ExHS256Key(HS256Key);

/// The claim pair embedded in every token: the identity and its
/// privilege tier, taken verbatim as the request's authority.
#[derive(Clone, Copy, Debug, PartialEq, Eq, Structural)]
pub struct JWTClaims {
    pub id: i32,
    pub privileges: Privileges,
}

/// A resolved session; id and privileges are read-only once resolved.
#[derive(Clone, Copy, Debug, PartialEq, Eq, Structural)]
pub struct Session {
    id: i32,
    privileges: Privileges,
}

impl Session {
    /// The identity the session carries.
    pub closed spec fn id_spec(self) -> i32 {
        self.id
    }

    /// The privilege tier the session carries.
    pub closed spec fn privileges_spec(self) -> Privileges {
        self.privileges
    }

    pub fn new(id: i32, privileges: Privileges) -> (s: Self)
        ensures
            s.id_spec() == id,
            s.privileges_spec() == privileges,
    {
        Self { id, privileges }
    }

    pub fn id(self) -> (r: i32)
        ensures
            r == self.id_spec(),
    {
        self.id
    }

    pub fn privileges(self) -> (r: Privileges)
        ensures
            r == self.privileges_spec(),
    {
        self.privileges
    }
}

/// The privilege tier a claim string names, if any.
pub open spec fn parse_privileges_spec(s: Seq<char>) -> Option<Privileges> {
    if s == "Basic"@ {
        Some(Privileges::Basic)
    } else if s == "Full"@ {
        Some(Privileges::Full)
    } else {
        None
    }
}

/// The claim string naming a privilege tier.
pub open spec fn privileges_name_spec(p: Privileges) -> Seq<char> {
    match p {
        Privileges::Basic => "Basic"@,
        Privileges::Full => "Full"@,
    }
}

/// Decides `parse_privileges_spec`.
pub fn parse_privileges(s: &String) -> (r: Option<Privileges>)
    ensures
        r == parse_privileges_spec(s@),
{
    if *s == "Basic".to_owned() {
        Some(Privileges::Basic)
    } else if *s == "Full".to_owned() {
        Some(Privileges::Full)
    } else {
        None
    }
}

/// Produces the claim string of `privileges_name_spec`.
pub fn privileges_name(p: Privileges) -> (r: &'static str)
    ensures
        r@ == privileges_name_spec(p),
{
    match p {
        Privileges::Basic => "Basic",
        Privileges::Full => "Full",
    }
}

/// Naming a tier and parsing the name yields the tier again.
pub proof fn lemma_privileges_name_round_trip(p: Privileges)
    ensures
        parse_privileges_spec(privileges_name_spec(p)) == Some(p),
{
    reveal_strlit("Basic");
    reveal_strlit("Full");
    assert("Basic"@.len() == 5);
    assert("Full"@.len() == 4);
}

/// Builds a session from the raw claim pair a verified token carried:
/// the id must fit the identity type and the privilege string must
/// name a tier, else the token is reported bad.
pub fn session_from_claims(id: i64, privileges: &String) -> (r: Result<Session, Error>)
    ensures
        match r {
            Ok(s) => {
                &&& i32::MIN <= id <= i32::MAX
                &&& s.id_spec() == id as i32
                &&& parse_privileges_spec(privileges@) == Some(s.privileges_spec())
            },
            Err(e) => {
                &&& (id < i32::MIN || id > i32::MAX || parse_privileges_spec(privileges@) is None)
                &&& e == Error::AuthBadToken
            },
        },
{
    if id < i32::MIN as i64 || id > i32::MAX as i64 {
        return Err(Error::AuthBadToken);
    }
    match parse_privileges(privileges) {
        Some(p) => Ok(Session::new(id as i32, p)),
        None => Err(Error::AuthBadToken),
    }
}

/// Relies on jwt_simple's `MACLike::verify_token`: checks the token's
/// signature against the key and its validity window against the
/// clock, and hands back the `id` and `privileges` claims it carries.
/// The outcome depends on the clock, so nothing is promised of it;
/// `session_from_claims` is specified for every claim pair.
#[verifier::external_body]
fn verify_token_raw(key: &HS256Key, token: &str) -> (r: Result<(i64, String), ()>) {
    let claims = match key.verify_token::<serde_json::Value>(token, None) {
        Ok(c) => c,
        Err(_) => return Err(()),
    };
    let id = claims.custom.get("id").and_then(|v| v.as_i64()).ok_or(())?;
    let privileges = claims.custom.get("privileges").and_then(|v| v.as_str()).ok_or(())?;
    Ok((id, privileges.to_string()))
}

/// Resolves a request's session from its auth cookie. A missing
/// cookie fails as such; with a cookie present, the only failure is a
/// rejected or ill-shaped token, and a resolved session carries a
/// claim pair accepted by `session_from_claims`.
pub fn resolve_session(key: &HS256Key, cookie: Option<&String>) -> (r: Result<Session, Error>)
    ensures
        cookie is None ==> r == Err::<Session, Error>(Error::AuthMissingCookie),
        cookie is Some ==> (r is Ok || r == Err::<Session, Error>(Error::AuthBadToken)),
{
    let token = match cookie {
        Some(t) => t,
        None => {
            return Err(Error::AuthMissingCookie);
        },
    };
    match verify_token_raw(key, token.as_str()) {
        Ok((id, privileges)) => session_from_claims(id, &privileges),
        Err(_) => Err(Error::AuthBadToken),
    }
}

} // verus!
