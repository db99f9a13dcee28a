use jwt_simple::algorithms::HS256Key;
use order_core::errors::Error;
use order_core::login::login_token;
use order_core::models::{Privileges, User};
use order_core::session::{parse_privileges, privileges_name, resolve_session, Session};

fn boss() -> User {
    User {
        id: 5,
        name: "boss".to_owned(),
        password: "123".to_owned(),
        privileges: Privileges::Full,
    }
}

#[test]
fn session_accessors() {
    let s = Session::new(7, Privileges::Basic);
    assert_eq!(s.id(), 7);
    assert!(matches!(s.privileges(), Privileges::Basic));
}

#[test]
fn login_unknown_user() {
    let key = HS256Key::generate();
    let r = login_token(&key, None, &"123".to_owned());
    assert_eq!(r.unwrap_err(), Error::LoginDoesntExist);
}

#[test]
fn login_bad_password() {
    let key = HS256Key::generate();
    let r = login_token(&key, Some(boss()), &"123_ale_4".to_owned());
    assert_eq!(r.unwrap_err(), Error::LoginBadPassword);
}

#[test]
fn login_weak_key_fails_to_mint() {
    // jwt_simple refuses to sign with a key shorter than 12 bytes
    let key = HS256Key::from_bytes(&[0u8; 4]);
    let r = login_token(&key, Some(boss()), &"123".to_owned());
    assert_eq!(r.unwrap_err(), Error::LoginFailedToGenerateToken);
}

#[test]
fn login_then_resolve_round_trip() {
    let key = HS256Key::generate();
    let token = login_token(&key, Some(boss()), &"123".to_owned()).unwrap();

    let session = resolve_session(&key, Some(&token)).unwrap();
    assert_eq!(session.id(), 5);
    assert!(matches!(session.privileges(), Privileges::Full));
}

#[test]
fn resolve_missing_cookie() {
    let key = HS256Key::generate();
    let r = resolve_session(&key, None);
    assert_eq!(r.unwrap_err(), Error::AuthMissingCookie);
}

#[test]
fn resolve_garbage_token() {
    let key = HS256Key::generate();
    let r = resolve_session(&key, Some(&"failed".to_owned()));
    assert_eq!(r.unwrap_err(), Error::AuthBadToken);
}

#[test]
fn resolve_with_wrong_key() {
    let key = HS256Key::generate();
    let other = HS256Key::generate();
    let token = login_token(&key, Some(boss()), &"123".to_owned()).unwrap();
    let r = resolve_session(&other, Some(&token));
    assert_eq!(r.unwrap_err(), Error::AuthBadToken);
}

#[test]
fn privilege_names_round_trip() {
    assert_eq!(privileges_name(Privileges::Basic), "Basic");
    assert_eq!(privileges_name(Privileges::Full), "Full");
    assert!(matches!(parse_privileges(&"Basic".to_owned()), Some(Privileges::Basic)));
    assert!(matches!(parse_privileges(&"Full".to_owned()), Some(Privileges::Full)));
    assert!(parse_privileges(&"Boss".to_owned()).is_none());
}
