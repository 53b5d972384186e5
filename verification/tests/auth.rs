use clutch_hub_api::auth::{bearer_token, AuthGuard, AuthUser, Claims, SECONDS_PER_HOUR};

#[test]
fn claims_expire_after_the_given_hours() {
    let claims = Claims::issue("pk-1", 1_700_000_000, 24);
    assert_eq!(claims, Claims { pk: "pk-1".to_string(), exp: 1_700_086_400 });
    let claims = Claims::issue("pk-1", 1_700_000_000, 0);
    assert_eq!(claims.exp, 1_700_000_000);
    assert_eq!(SECONDS_PER_HOUR, 3600);
}

#[test]
fn user_takes_the_public_key_of_the_claims() {
    let user = AuthUser::from_claims(Claims { pk: "pk-1".to_string(), exp: 5 });
    assert_eq!(user, AuthUser { public_key: "pk-1".to_string() });
}

#[test]
fn guard_asks_for_a_user() {
    let user = AuthUser { public_key: "pk-1".to_string() };
    assert_eq!(AuthGuard.check(Some(&user)), Ok(()));
    assert_eq!(AuthGuard.check(None), Err("Unauthorized: Authentication required".to_string()));
}

#[test]
fn bearer_token_follows_the_prefix() {
    assert_eq!(bearer_token("Bearer abc.def.ghi"), Some("abc.def.ghi".to_string()));
    assert_eq!(bearer_token("Bearer "), Some(String::new()));
    assert_eq!(bearer_token("Bearer  two"), Some(" two".to_string()));
    assert_eq!(bearer_token("Bearer \u{e9}t\u{e9}"), Some("\u{e9}t\u{e9}".to_string()));
}

#[test]
fn other_headers_carry_no_bearer_token() {
    assert_eq!(bearer_token(""), None);
    assert_eq!(bearer_token("Bearer"), None);
    assert_eq!(bearer_token("bearer abc"), None);
    assert_eq!(bearer_token("Basic abc"), None);
    assert_eq!(bearer_token(" Bearer abc"), None);
    assert_eq!(bearer_token("\u{e9}earer abc"), None);
}
