use webserver::account::AccountUuid;
use webserver::api::{ApiErrorKind, Rejection};
use webserver::ids::BusinessModelUuid;
use webserver::oidc::{
    discovery_attempts, insert_account_from_claims, login_redirect_target, login_scopes,
    login_session_key, require_token_url, DiscoveryFailure, DiscoveryRetry, LoginCallback,
    LoginCallbackAction, LoginCallbackEvent, OidcClaims, OidcLogin, OidcLoginAction,
    OidcLoginEvent, RetryAction, TokenRequestFailure,
};

fn login_failure(a: OidcLoginAction<String>) -> (ApiErrorKind, &'static str, Option<String>) {
    match a {
        OidcLoginAction::Finish(Err(e)) => (e.failure.kind, e.failure.context, e.source),
        _ => panic!("expected a failure"),
    }
}

#[test]
fn constants() {
    assert_eq!(login_scopes(), vec!["profile".to_string(), "email".to_string()]);
    assert_eq!(discovery_attempts(), 3);
    assert_eq!(login_session_key(), "begin_oidc_login");
    assert_eq!(login_redirect_target(), "/");
}

#[test]
fn csrf_mismatch_is_unauthorized() {
    let (s, a) = OidcLogin::finish_login::<String>("abc", "abd");
    assert!(matches!(s, OidcLogin::Finished));
    assert_eq!(login_failure(a), (ApiErrorKind::Unauthorized, "Secret state is invalid", None));
    let (_, a) = OidcLogin::finish_login::<String>("abc", "abc");
    assert!(matches!(a, OidcLoginAction::ExchangeCode));
}

fn exchanged() -> OidcLogin {
    let (s, _) = OidcLogin::finish_login::<String>("st", "st");
    s
}

#[test]
fn token_exchange_failures() {
    let (_, a) = exchanged().advance::<String>(OidcLoginEvent::CodeExchanged(Err(TokenRequestFailure::ServerResponse)));
    assert_eq!(login_failure(a), (ApiErrorKind::ServerError, "server response invalid", None));
    for f in [TokenRequestFailure::Request, TokenRequestFailure::Parse, TokenRequestFailure::Other] {
        let (_, a) = exchanged().advance::<String>(OidcLoginEvent::CodeExchanged(Err(f)));
        assert_eq!(login_failure(a), (ApiErrorKind::BadRequest, "bad request", None));
    }
    let (_, a) = exchanged().advance::<String>(OidcLoginEvent::CodeExchanged(Ok(false)));
    assert_eq!(login_failure(a), (ApiErrorKind::ServerError, "Oidc provider did not provider an id token.", None));
}

fn verifying() -> OidcLogin {
    let (s, a) = exchanged().advance::<String>(OidcLoginEvent::CodeExchanged(Ok(true)));
    assert!(matches!(a, OidcLoginAction::VerifyIdToken));
    s
}

#[test]
fn id_token_checks() {
    let (_, a) = verifying().advance(OidcLoginEvent::IdTokenVerified(Err("bad signature".to_string())));
    assert_eq!(
        login_failure(a),
        (ApiErrorKind::Unauthorized, "Failed to verify id token", Some("bad signature".to_string()))
    );
    let (s, a) = verifying().advance::<String>(OidcLoginEvent::IdTokenVerified(Ok(None)));
    assert!(matches!(s, OidcLogin::Finished));
    assert!(matches!(a, OidcLoginAction::Finish(Ok(()))));
}

fn hashing(expected: &str) -> OidcLogin {
    let (s, a) = verifying().advance::<String>(OidcLoginEvent::IdTokenVerified(Ok(Some(expected.to_string()))));
    assert!(matches!(a, OidcLoginAction::RetrieveSigningAlgorithm));
    let (s, a) = s.advance::<String>(OidcLoginEvent::SigningAlgorithmRetrieved(Ok(())));
    assert!(matches!(a, OidcLoginAction::RetrieveSigningKey));
    let (s, a) = s.advance::<String>(OidcLoginEvent::SigningKeyRetrieved(Ok(())));
    assert!(matches!(a, OidcLoginAction::HashAccessToken));
    s
}

#[test]
fn access_token_hash() {
    let (_, a) = hashing("q9V-a").advance::<String>(OidcLoginEvent::AccessTokenHashed(Ok("q9V-a".to_string())));
    assert!(matches!(a, OidcLoginAction::Finish(Ok(()))));
    let (_, a) = hashing("q9V-a").advance::<String>(OidcLoginEvent::AccessTokenHashed(Ok("q9V-b".to_string())));
    assert_eq!(login_failure(a), (ApiErrorKind::Unauthorized, "Invalid access token", None));
    let (_, a) = hashing("x").advance(OidcLoginEvent::AccessTokenHashed(Err("alg".to_string())));
    assert_eq!(
        login_failure(a),
        (ApiErrorKind::ServerError, "Failed to recreate access token signature", Some("alg".to_string()))
    );
    let (s, _) = verifying().advance::<String>(OidcLoginEvent::IdTokenVerified(Ok(Some("h".to_string()))));
    let (_, a) = s.advance(OidcLoginEvent::SigningAlgorithmRetrieved(Err("none".to_string())));
    assert_eq!(login_failure(a).1, "Failed to retrieve signing algorithm");
    let (s, _) = verifying().advance::<String>(OidcLoginEvent::IdTokenVerified(Ok(Some("h".to_string()))));
    let (s, _) = s.advance::<String>(OidcLoginEvent::SigningAlgorithmRetrieved(Ok(())));
    let (_, a) = s.advance(OidcLoginEvent::SigningKeyRetrieved(Err("none".to_string())));
    assert_eq!(login_failure(a).1, "Failed to retrieve signing key");
}

fn claims(issuer: &str, subject: &str, name: Option<&str>, email: Option<&str>) -> OidcClaims {
    OidcClaims {
        issuer: issuer.to_string(),
        subject: subject.to_string(),
        name: name.map(|s| s.to_string()),
        email: email.map(|s| s.to_string()),
    }
}

#[test]
fn claims_to_account_data() {
    let d = insert_account_from_claims(claims("iss", "sub", Some("Jane"), Some("j@x"))).ok().unwrap();
    assert_eq!(d.issuer.as_str(), "iss");
    assert_eq!(d.subject.as_str(), "sub");
    assert_eq!(d.display_name.as_str(), "Jane");
    assert_eq!(d.email.as_str(), "j@x");
    let long = "x".repeat(256);
    let err = |c: OidcClaims| {
        let f = insert_account_from_claims(c).err().unwrap();
        assert_eq!(f.kind, ApiErrorKind::ServerError);
        f.context
    };
    assert_eq!(err(claims(&long, &long, None, None)), "Issuer is too long");
    assert_eq!(err(claims("i", &long, None, None)), "Subject is too long");
    assert_eq!(err(claims("i", "s", None, None)), "Oidc provider did not provide the name claims");
    assert_eq!(err(claims("i", "s", Some(&long), None)), "Name is too long");
    assert_eq!(err(claims("i", "s", Some("n"), None)), "Oidc provider did not provide the email claims");
    assert_eq!(err(claims("i", "s", Some("n"), Some(&long))), "Email is too long");
}

fn callback_at_transaction(c: OidcClaims) -> LoginCallback {
    let (s, a) = LoginCallback::begin::<String>();
    assert!(matches!(a, LoginCallbackAction::TakePendingLogin));
    let (s, a) = s.advance::<String>(LoginCallbackEvent::PendingLoginTaken(Ok(true)));
    assert!(matches!(a, LoginCallbackAction::FinishLogin));
    let (s, a) = s.advance::<String>(LoginCallbackEvent::LoginFinished(Ok(c)));
    assert!(matches!(a, LoginCallbackAction::OpenTransaction));
    s
}

#[test]
fn callback_for_existing_account() {
    let s = callback_at_transaction(claims("iss", "sub", Some("Jane"), Some("j@x")));
    let (s, a) = s.advance::<String>(LoginCallbackEvent::TransactionOpened(Ok(())));
    match a {
        LoginCallbackAction::FindAccountByOidc { issuer, subject } => {
            assert_eq!(issuer, "iss");
            assert_eq!(subject, "sub");
        }
        _ => panic!("expected a lookup"),
    }
    let id = AccountUuid::new_from_model(4);
    let (s, a) = s.advance::<String>(LoginCallbackEvent::AccountFound(Ok(Some(id))));
    match a {
        LoginCallbackAction::UpdateDisplayName { account, display_name } => {
            assert_eq!(account.get_inner(), 4);
            assert_eq!(display_name.as_str(), "Jane");
        }
        _ => panic!("expected an update"),
    }
    let (s, a) = s.advance::<String>(LoginCallbackEvent::AccountUpdated(Ok(())));
    assert!(matches!(a, LoginCallbackAction::ReloadAccount(_)));
    let (s, a) = s.advance::<String>(LoginCallbackEvent::AccountReloaded(Ok(Some(id))));
    assert!(matches!(a, LoginCallbackAction::Commit));
    let (s, a) = s.advance::<String>(LoginCallbackEvent::Committed(Ok(())));
    match a {
        LoginCallbackAction::SetLoggedIn(account) => assert_eq!(account.get_inner(), 4),
        _ => panic!("expected a login"),
    }
    let (s, a) = s.advance::<String>(LoginCallbackEvent::LoggedIn(Ok(())));
    assert!(matches!(s, LoginCallback::Finished));
    assert!(matches!(a, LoginCallbackAction::Finish(Ok(()))));
}

#[test]
fn callback_for_new_account() {
    let s = callback_at_transaction(claims("iss", "sub", Some("Jane"), Some("j@x")));
    let (s, _) = s.advance::<String>(LoginCallbackEvent::TransactionOpened(Ok(())));
    let (s, a) = s.advance::<String>(LoginCallbackEvent::AccountFound(Ok(None)));
    match a {
        LoginCallbackAction::CreateAccount(d) => {
            assert_eq!(d.email.as_str(), "j@x");
            assert_eq!(d.display_name.as_str(), "Jane");
        }
        _ => panic!("expected a new account"),
    }
    let (_, a) = s.advance::<String>(LoginCallbackEvent::AccountCreated(Ok(AccountUuid::new_from_model(8))));
    assert!(matches!(a, LoginCallbackAction::Commit));
}

#[test]
fn callback_refusals() {
    let (s, _) = LoginCallback::begin::<String>();
    let (_, a) = s.advance::<String>(LoginCallbackEvent::PendingLoginTaken(Ok(false)));
    match a {
        LoginCallbackAction::Finish(Err(Rejection::Refused(f))) => {
            assert_eq!(f.kind, ApiErrorKind::BadRequest);
            assert_eq!(f.context, "There is no unfinished login.");
        }
        _ => panic!("expected a refusal"),
    }
    let s = callback_at_transaction(claims("iss", "sub", None, Some("j@x")));
    let (_, a) = s.advance::<String>(LoginCallbackEvent::TransactionOpened(Ok(())));
    match a {
        LoginCallbackAction::Finish(Err(Rejection::Refused(f))) => {
            assert_eq!(f.context, "Oidc provider did not provide the name claims")
        }
        _ => panic!("expected a refusal"),
    }
    let s = callback_at_transaction(claims("iss", "sub", Some("n"), Some("e")));
    let (s, _) = s.advance::<String>(LoginCallbackEvent::TransactionOpened(Ok(())));
    let (s, _) = s.advance::<String>(LoginCallbackEvent::AccountFound(Ok(Some(AccountUuid::new_from_model(1)))));
    let (s, _) = s.advance::<String>(LoginCallbackEvent::AccountUpdated(Ok(())));
    let (_, a) = s.advance::<String>(LoginCallbackEvent::AccountReloaded(Ok(None)));
    match a {
        LoginCallbackAction::Finish(Err(Rejection::Refused(f))) => {
            assert_eq!(f.kind, ApiErrorKind::BadRequest);
            assert_eq!(f.context, "Account does not exist.");
        }
        _ => panic!("expected a refusal"),
    }
    let (s, _) = LoginCallback::begin::<String>();
    let (_, a) = s.advance(LoginCallbackEvent::PendingLoginTaken(Err("session".to_string())));
    assert!(matches!(a, LoginCallbackAction::Finish(Err(Rejection::Failed(_)))));
}

#[test]
fn token_url_is_required() {
    assert_eq!(require_token_url(Some(5)).ok(), Some(5));
    let e = require_token_url::<u8>(None).err().unwrap();
    assert!(matches!(e, DiscoveryFailure::MissingTokenUrl));
    assert_eq!(e.message(), "Issuer did not provide a token url");
}

#[test]
fn discovery_retries_only_timeouts() {
    let (s, a) = DiscoveryRetry::begin(3);
    assert!(matches!(a, RetryAction::Discover));
    let (s, a) = s.attempt_done(true);
    assert!(matches!(a, RetryAction::Discover));
    let (s, a) = s.attempt_done(false);
    assert!(matches!(a, RetryAction::ReturnLast));
    assert_eq!(s.attempts, 2);

    let (mut s, _) = DiscoveryRetry::begin(3);
    let mut actions = Vec::new();
    for _ in 0..3 {
        let (next, a) = s.attempt_done(true);
        s = next;
        actions.push(a);
    }
    assert!(matches!(actions[0], RetryAction::Discover));
    assert!(matches!(actions[1], RetryAction::Discover));
    assert!(matches!(actions[2], RetryAction::GiveUp));
    assert_eq!(s.attempts, 3);

    let (_, a) = DiscoveryRetry::begin(0);
    assert!(matches!(a, RetryAction::NoAttempt));
}
