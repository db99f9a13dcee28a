//! The login decision: match the supplied password against the stored
//! account and mint a signed bearer token carrying the account's
//! claims.
use vstd::prelude::*;
use jwt_simple::algorithms::HS256Key;
use jwt_simple::prelude::MACLike;
use crate::errors::Error;
use crate::models::User;
use crate::session::{privileges_name, JWTClaims};

verus! {

/// How long a minted token stays valid, in hours.
pub const TOKEN_VALID_HOURS: u64 = 2;

/// Decides a login attempt against the looked-up account: no account
/// fails as unknown, a wrong password as such, and a match yields the
/// claim pair to embed in the token.
pub fn check_login(user: Option<User>, password: &String) -> (r: Result<JWTClaims, Error>)
    ensures
        match user {
            None => r == Err::<JWTClaims, Error>(Error::LoginDoesntExist),
            Some(u) => if u.password@ == password@ {
                r == Ok::<JWTClaims, Error>((JWTClaims { id: u.id, privileges: u.privileges }))
            } else {
                r == Err::<JWTClaims, Error>(Error::LoginBadPassword)
            },
        },
{
    match user {
        None => Err(Error::LoginDoesntExist),
        Some(u) => {
            if u.password == *password {
                Ok(JWTClaims { id: u.id, privileges: u.privileges })
            } else {
                Err(Error::LoginBadPassword)
            }
        },
    }
}

/// Relies on jwt_simple's `Claims::with_custom_claims` and
/// `MACLike::authenticate`: mints a signed token carrying the given
/// `id` and `privileges` claims, valid for `hours` from now. The
/// token embeds the minting time, so nothing is promised of it. The
/// validity window is bounded to a year because coarsetime multiplies
/// the hours into seconds unchecked, which would overflow (and panic)
/// on huge values.
#[verifier::external_body]
fn mint_token(key: &HS256Key, id: i32, privileges: &str, hours: u64) -> (r: Result<String, ()>)
    requires
        hours <= 8760,
{
    let mut custom = serde_json::Map::new();
    custom.insert("id".to_string(), serde_json::Value::from(id));
    custom.insert("privileges".to_string(), serde_json::Value::from(privileges));
    let claims = jwt_simple::claims::Claims::with_custom_claims(
        serde_json::Value::Object(custom),
        jwt_simple::prelude::Duration::from_hours(hours),
    );
    key.authenticate(claims).map_err(|_| ())
}

/// The whole login decision after the account lookup: an unknown
/// account or a wrong password fails exactly as `check_login` says;
/// on a match the only failure left is the token generator itself.
pub fn login_token(key: &HS256Key, user: Option<User>, password: &String) -> (r: Result<
    String,
    Error,
>)
    ensures
        match user {
            None => r == Err::<String, Error>(Error::LoginDoesntExist),
            Some(u) => if u.password@ != password@ {
                r == Err::<String, Error>(Error::LoginBadPassword)
            } else {
                r is Ok || r == Err::<String, Error>(Error::LoginFailedToGenerateToken)
            },
        },
{
    let claims = match check_login(user, password) {
        Ok(c) => c,
        Err(e) => {
            return Err(e);
        },
    };
    let name = privileges_name(claims.privileges);
    match mint_token(key, claims.id, name, TOKEN_VALID_HOURS) {
        Ok(t) => Ok(t),
        Err(_) => Err(Error::LoginFailedToGenerateToken),
    }
}

} // verus!
