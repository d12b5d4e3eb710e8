//! Logging in through an OpenID Connect provider.
//!
//! The provider is contacted by the caller; the machines here decide, from
//! what the provider and the database answered, how the login proceeds and
//! how it ends.
use vstd::prelude::*;

use crate::account::{AccountUuid, InsertAccount};
use crate::api::{ApiErrorKind, ApiFailure, Rejection};
use crate::bounded::{byte_len, fits, BoundedStr};
use crate::text::str_eq;

verus! {

/// The scopes asked for besides `openid`.
pub fn login_scopes() -> (res: Vec<String>)
    ensures
        res@.len() == 2,
        res@[0]@ == "profile"@,
        res@[1]@ == "email"@,
{
    let mut res = Vec::new();
    res.push("profile".to_owned());
    res.push("email".to_owned());
    res
}

/// How often discovery of the provider is tried before giving up.
pub fn discovery_attempts() -> (res: usize)
    ensures
        res == 3,
{
    3
}

/// The session key under which a login that was begun is remembered.
pub fn login_session_key() -> (res: &'static str)
    ensures
        res@ == "begin_oidc_login"@,
{
    "begin_oidc_login"
}

/// Where the page the user lands on after logging in.
pub fn login_redirect_target() -> (res: &'static str)
    ensures
        res@ == "/"@,
{
    "/"
}

/// A refusal with status `kind` and message `context`.
pub open spec fn is_failure(f: ApiFailure, kind: ApiErrorKind, context: Seq<char>) -> bool {
    f.kind == kind && f.context@ == context
}

fn failure(kind: ApiErrorKind, context: &'static str) -> (res: ApiFailure)
    ensures
        res.kind == kind,
        res.context@ == context@,
{
    ApiFailure { kind, context }
}

// ---------------------------------------------------------------- provider

/// How the exchange of the authorization code failed.
pub enum TokenRequestFailure {
    /// The provider answered with an error response.
    ServerResponse,
    /// The request could not be sent or the response not be read.
    Request,
    /// The response could not be parsed.
    Parse,
    /// Anything else.
    Other,
}

/// A failed login: the answer, and the error that caused it if one is to be
/// reported along.
pub struct LoginError<E> {
    /// The answer.
    pub failure: ApiFailure,
    /// The underlying error.
    pub source: Option<E>,
}

/// Where the completion of a login with the provider stands.
pub enum OidcLogin {
    /// Waiting for the code to be exchanged for tokens.
    ExchangingCode,
    /// Waiting for the ID token to be verified.
    VerifyingIdToken,
    /// Waiting for the signing algorithm of the ID token.
    RetrievingSigningAlgorithm { expected: String },
    /// Waiting for the signing key of the ID token.
    RetrievingSigningKey { expected: String },
    /// Waiting for the hash of the access token.
    HashingAccessToken { expected: String },
    /// Done.
    Finished,
}

/// What the caller observed when it carried out the last action.
pub enum OidcLoginEvent<E> {
    /// The token response; `true` when it holds an ID token.
    CodeExchanged(Result<bool, TokenRequestFailure>),
    /// The ID token's claims were verified; the access token hash they
    /// state, if any.
    IdTokenVerified(Result<Option<String>, E>),
    /// The signing algorithm was retrieved.
    SigningAlgorithmRetrieved(Result<(), E>),
    /// The signing key was retrieved.
    SigningKeyRetrieved(Result<(), E>),
    /// The hash of the access token, computed with that algorithm and key.
    AccessTokenHashed(Result<String, E>),
}

/// What the caller is to do next.
pub enum OidcLoginAction<E> {
    /// Exchange the authorization code (with the PKCE verifier) for tokens.
    ExchangeCode,
    /// Verify the ID token against the nonce of the session.
    VerifyIdToken,
    /// Retrieve the ID token's signing algorithm.
    RetrieveSigningAlgorithm,
    /// Retrieve the ID token's signing key.
    RetrieveSigningKey,
    /// Hash the access token.
    HashAccessToken,
    /// Stop: `Ok` hands out the verified claims.
    Finish(Result<(), LoginError<E>>),
}

/// The login ends with this answer and no underlying error.
pub open spec fn ends_with<E>(a: OidcLoginAction<E>, kind: ApiErrorKind, context: Seq<char>) -> bool {
    a matches OidcLoginAction::Finish(Err(le)) && is_failure(le.failure, kind, context)
        && le.source is None
}

/// The login ends with this answer, reporting `e` along.
pub open spec fn ends_with_source<E>(
    a: OidcLoginAction<E>,
    kind: ApiErrorKind,
    context: Seq<char>,
    e: E,
) -> bool {
    a matches OidcLoginAction::Finish(Err(le)) && is_failure(le.failure, kind, context)
        && le.source == Some(e)
}

fn login_fails<E>(kind: ApiErrorKind, context: &'static str, source: Option<E>) -> (res: (
    OidcLogin,
    OidcLoginAction<E>,
))
    ensures
        res.0 is Finished,
        res.1 matches OidcLoginAction::Finish(Err(le)) && le.failure.kind == kind
            && le.failure.context@ == context@ && le.source == source,
{
    (
        OidcLogin::Finished,
        OidcLoginAction::Finish(Err(LoginError { failure: failure(kind, context), source })),
    )
}

impl OidcLogin {
    /// Starts finishing a login: the `state` the provider sent back must be
    /// the CSRF token the session remembered; then the code is exchanged.
    pub fn finish_login<E>(request_state: &str, session_csrf_token: &str) -> (res: (
        OidcLogin,
        OidcLoginAction<E>,
    ))
        ensures
            if request_state@ == session_csrf_token@ {
                res.0 is ExchangingCode && res.1 is ExchangeCode
            } else {
                res.0 is Finished && ends_with(
                    res.1,
                    ApiErrorKind::Unauthorized,
                    "Secret state is invalid"@,
                )
            },
    {
        if !str_eq(request_state, session_csrf_token) {
            return login_fails(ApiErrorKind::Unauthorized, "Secret state is invalid", None);
        }
        (OidcLogin::ExchangingCode, OidcLoginAction::ExchangeCode)
    }

    /// The event this step waits for.
    pub open spec fn awaits<E>(&self, event: &OidcLoginEvent<E>) -> bool {
        match (self, event) {
            (OidcLogin::ExchangingCode, OidcLoginEvent::CodeExchanged(_)) => true,
            (OidcLogin::VerifyingIdToken, OidcLoginEvent::IdTokenVerified(_)) => true,
            (
                OidcLogin::RetrievingSigningAlgorithm { .. },
                OidcLoginEvent::SigningAlgorithmRetrieved(_),
            ) => true,
            (OidcLogin::RetrievingSigningKey { .. }, OidcLoginEvent::SigningKeyRetrieved(_)) => true,
            (OidcLogin::HashingAccessToken { .. }, OidcLoginEvent::AccessTokenHashed(_)) => true,
            _ => false,
        }
    }

    /// Takes the next step.  A failed code exchange is a server error when
    /// the provider answered with an error and a bad request otherwise; a
    /// token response without ID token is a server error; an ID token that
    /// does not verify is unauthorized.  When the claims state an access
    /// token hash, the access token is hashed with the ID token's signing
    /// algorithm and key (any failure there is a server error) and must
    /// give that hash, else the login is unauthorized.
    pub fn advance<E>(self, event: OidcLoginEvent<E>) -> (res: (OidcLogin, OidcLoginAction<E>))
        requires
            self.awaits(&event),
        ensures
            match (self, event) {
                (OidcLogin::ExchangingCode, OidcLoginEvent::CodeExchanged(r)) => match r {
                    Err(TokenRequestFailure::ServerResponse) => res.0 is Finished && ends_with(
                        res.1,
                        ApiErrorKind::ServerError,
                        "server response invalid"@,
                    ),
                    Err(_) => res.0 is Finished && ends_with(
                        res.1,
                        ApiErrorKind::BadRequest,
                        "bad request"@,
                    ),
                    Ok(false) => res.0 is Finished && ends_with(
                        res.1,
                        ApiErrorKind::ServerError,
                        "Oidc provider did not provider an id token."@,
                    ),
                    Ok(true) => res.0 is VerifyingIdToken && res.1 is VerifyIdToken,
                },
                (OidcLogin::VerifyingIdToken, OidcLoginEvent::IdTokenVerified(r)) => match r {
                    Err(e) => res.0 is Finished && ends_with_source(
                        res.1,
                        ApiErrorKind::Unauthorized,
                        "Failed to verify id token"@,
                        e,
                    ),
                    Ok(None) => res.0 is Finished && res.1 is Finish && (res.1 matches OidcLoginAction::Finish(o) && o is Ok),
                    Ok(Some(h)) => res.0 == (OidcLogin::RetrievingSigningAlgorithm { expected: h })
                        && res.1 is RetrieveSigningAlgorithm,
                },
                (
                    OidcLogin::RetrievingSigningAlgorithm { expected },
                    OidcLoginEvent::SigningAlgorithmRetrieved(r),
                ) => match r {
                    Err(e) => res.0 is Finished && ends_with_source(
                        res.1,
                        ApiErrorKind::ServerError,
                        "Failed to retrieve signing algorithm"@,
                        e,
                    ),
                    Ok(()) => res.0 == (OidcLogin::RetrievingSigningKey { expected })
                        && res.1 is RetrieveSigningKey,
                },
                (
                    OidcLogin::RetrievingSigningKey { expected },
                    OidcLoginEvent::SigningKeyRetrieved(r),
                ) => match r {
                    Err(e) => res.0 is Finished && ends_with_source(
                        res.1,
                        ApiErrorKind::ServerError,
                        "Failed to retrieve signing key"@,
                        e,
                    ),
                    Ok(()) => res.0 == (OidcLogin::HashingAccessToken { expected })
                        && res.1 is HashAccessToken,
                },
                (
                    OidcLogin::HashingAccessToken { expected },
                    OidcLoginEvent::AccessTokenHashed(r),
                ) => match r {
                    Err(e) => res.0 is Finished && ends_with_source(
                        res.1,
                        ApiErrorKind::ServerError,
                        "Failed to recreate access token signature"@,
                        e,
                    ),
                    Ok(actual) => res.0 is Finished && if actual@ == expected@ {
                        res.1 matches OidcLoginAction::Finish(o) && o is Ok
                    } else {
                        ends_with(res.1, ApiErrorKind::Unauthorized, "Invalid access token"@)
                    },
                },
                _ => false,
            },
    {
        match (self, event) {
            (OidcLogin::ExchangingCode, OidcLoginEvent::CodeExchanged(r)) => match r {
                Err(TokenRequestFailure::ServerResponse) => login_fails(
                    ApiErrorKind::ServerError,
                    "server response invalid",
                    None,
                ),
                Err(_) => login_fails(ApiErrorKind::BadRequest, "bad request", None),
                Ok(false) => login_fails(
                    ApiErrorKind::ServerError,
                    "Oidc provider did not provider an id token.",
                    None,
                ),
                Ok(true) => (OidcLogin::VerifyingIdToken, OidcLoginAction::VerifyIdToken),
            },
            (OidcLogin::VerifyingIdToken, OidcLoginEvent::IdTokenVerified(r)) => match r {
                Err(e) => login_fails(ApiErrorKind::Unauthorized, "Failed to verify id token", Some(e)),
                Ok(None) => (OidcLogin::Finished, OidcLoginAction::Finish(Ok(()))),
                Ok(Some(h)) => (
                    OidcLogin::RetrievingSigningAlgorithm { expected: h },
                    OidcLoginAction::RetrieveSigningAlgorithm,
                ),
            },
            (
                OidcLogin::RetrievingSigningAlgorithm { expected },
                OidcLoginEvent::SigningAlgorithmRetrieved(r),
            ) => match r {
                Err(e) => login_fails(
                    ApiErrorKind::ServerError,
                    "Failed to retrieve signing algorithm",
                    Some(e),
                ),
                Ok(()) => (
                    OidcLogin::RetrievingSigningKey { expected },
                    OidcLoginAction::RetrieveSigningKey,
                ),
            },
            (OidcLogin::RetrievingSigningKey { expected }, OidcLoginEvent::SigningKeyRetrieved(r)) => match r {
                Err(e) => login_fails(
                    ApiErrorKind::ServerError,
                    "Failed to retrieve signing key",
                    Some(e),
                ),
                Ok(()) => (
                    OidcLogin::HashingAccessToken { expected },
                    OidcLoginAction::HashAccessToken,
                ),
            },
            (OidcLogin::HashingAccessToken { expected }, OidcLoginEvent::AccessTokenHashed(r)) => match r {
                Err(e) => login_fails(
                    ApiErrorKind::ServerError,
                    "Failed to recreate access token signature",
                    Some(e),
                ),
                Ok(actual) => if str_eq(actual.as_str(), expected.as_str()) {
                    (OidcLogin::Finished, OidcLoginAction::Finish(Ok(())))
                } else {
                    login_fails(ApiErrorKind::Unauthorized, "Invalid access token", None)
                },
            },
            _ => {
                proof {
                    assert(false);
                }
                (OidcLogin::Finished, OidcLoginAction::Finish(Ok(())))
            },
        }
    }
}

// ---------------------------------------------------------------- claims

/// The claims of a verified ID token that an account is made from.
pub struct OidcClaims {
    /// The issuer.
    pub issuer: String,
    /// The subject.
    pub subject: String,
    /// The `name` claim in the default language, if given.
    pub name: Option<String>,
    /// The `email` claim, if given.
    pub email: Option<String>,
}

/// Why the claims of a verified ID token do not make account data, if
/// they do not: issuer, subject, name and email are required and must each
/// fit 255 bytes; the first that does not, in that order, decides.
pub open spec fn claims_problem(claims: OidcClaims) -> Option<Seq<char>> {
    if !fits(claims.issuer@, 255) {
        Some("Issuer is too long"@)
    } else if !fits(claims.subject@, 255) {
        Some("Subject is too long"@)
    } else if claims.name is None {
        Some("Oidc provider did not provide the name claims"@)
    } else if !fits(claims.name->0@, 255) {
        Some("Name is too long"@)
    } else if claims.email is None {
        Some("Oidc provider did not provide the email claims"@)
    } else if !fits(claims.email->0@, 255) {
        Some("Email is too long"@)
    } else {
        None
    }
}

/// Account data from the claims of a verified ID token, or the server
/// error that `claims_problem` names.
pub fn insert_account_from_claims(claims: OidcClaims) -> (res: Result<InsertAccount, ApiFailure>)
    ensures
        match claims_problem(claims) {
            Some(problem) => res matches Err(f) && is_failure(f, ApiErrorKind::ServerError, problem),
            None => res matches Ok(d) && d.issuer@ == claims.issuer@ && d.subject@ == claims.subject@
                && d.display_name@ == claims.name->0@ && d.email@ == claims.email->0@,
        },
{
    let issuer = match BoundedStr::<255>::new(claims.issuer) {
        Ok(s) => s,
        Err(_) => return Err(failure(ApiErrorKind::ServerError, "Issuer is too long")),
    };
    let subject = match BoundedStr::<255>::new(claims.subject) {
        Ok(s) => s,
        Err(_) => return Err(failure(ApiErrorKind::ServerError, "Subject is too long")),
    };
    let display_name = match claims.name {
        None => return Err(
            failure(ApiErrorKind::ServerError, "Oidc provider did not provide the name claims"),
        ),
        Some(name) => match BoundedStr::<255>::new(name) {
            Ok(s) => s,
            Err(_) => return Err(failure(ApiErrorKind::ServerError, "Name is too long")),
        },
    };
    let email = match claims.email {
        None => return Err(
            failure(ApiErrorKind::ServerError, "Oidc provider did not provide the email claims"),
        ),
        Some(email) => match BoundedStr::<255>::new(email) {
            Ok(s) => s,
            Err(_) => return Err(failure(ApiErrorKind::ServerError, "Email is too long")),
        },
    };
    Ok(InsertAccount { display_name, email, issuer, subject })
}

/// Claims make account data exactly when the issuer and subject fit 255
/// bytes and the name and email are given and fit 255 bytes each; the
/// account data then holds them unchanged, and otherwise the answer is a
/// server error.
pub proof fn law_claims_accepted_when_all_fit(claims: OidcClaims, res: Result<InsertAccount, ApiFailure>)
    requires
        call_ensures(insert_account_from_claims, (claims,), res),
    ensures
        res is Ok <==> {
            &&& byte_len(claims.issuer@) <= 255
            &&& byte_len(claims.subject@) <= 255
            &&& claims.name is Some
            &&& byte_len(claims.name->0@) <= 255
            &&& claims.email is Some
            &&& byte_len(claims.email->0@) <= 255
        },
        res matches Ok(d) ==> {
            &&& d.issuer@ == claims.issuer@
            &&& d.subject@ == claims.subject@
            &&& d.display_name@ == claims.name->0@
            &&& d.email@ == claims.email->0@
        },
        res matches Err(f) ==> f.kind == ApiErrorKind::ServerError,
{
}

// ---------------------------------------------------------------- callback

/// Where the handling of the provider's redirect back to us stands.
pub enum LoginCallback {
    /// Waiting for the login state remembered in the session.
    TakingPendingLogin,
    /// Waiting for the login with the provider to complete.
    FinishingLogin,
    /// Waiting for a database transaction.
    OpeningTransaction { claims: OidcClaims },
    /// Waiting for the account linked to the issuer and subject.
    FindingAccount { data: InsertAccount },
    /// Waiting for the display name of the existing account to be updated.
    UpdatingAccount { account: AccountUuid },
    /// Waiting for the updated account to be read back.
    ReloadingAccount,
    /// Waiting for the new account to be stored.
    CreatingAccount,
    /// Waiting for the transaction to be committed.
    Committing { account: AccountUuid },
    /// Waiting for the session to be marked as logged in.
    LoggingIn,
    /// Done.
    Finished,
}

/// What the caller observed when it carried out the last action.
pub enum LoginCallbackEvent<E> {
    /// Whether the session remembered a login that was begun.
    PendingLoginTaken(Result<bool, E>),
    /// The claims of the verified ID token.
    LoginFinished(Result<OidcClaims, E>),
    /// The transaction was opened.
    TransactionOpened(Result<(), E>),
    /// The account linked to the issuer and subject, if any.
    AccountFound(Result<Option<AccountUuid>, E>),
    /// The display name was updated.
    AccountUpdated(Result<(), E>),
    /// The account read back, if it still exists.
    AccountReloaded(Result<Option<AccountUuid>, E>),
    /// The new account was stored.
    AccountCreated(Result<AccountUuid, E>),
    /// The transaction was committed.
    Committed(Result<(), E>),
    /// The session was marked as logged in.
    LoggedIn(Result<(), E>),
}

/// What the caller is to do next.
pub enum LoginCallbackAction<E> {
    /// Take the login state out of the session.
    TakePendingLogin,
    /// Complete the login with the provider (see `OidcLogin`).
    FinishLogin,
    /// Open a database transaction.
    OpenTransaction,
    /// Look up the account linked to this issuer and subject.
    FindAccountByOidc { issuer: String, subject: String },
    /// Set the display name of this account.
    UpdateDisplayName { account: AccountUuid, display_name: BoundedStr<255> },
    /// Read this account back.
    ReloadAccount(AccountUuid),
    /// Store a new account.
    CreateAccount(InsertAccount),
    /// Commit the transaction.
    Commit,
    /// Mark the session as logged in as this account.
    SetLoggedIn(AccountUuid),
    /// Stop: `Ok` redirects to the start page.
    Finish(Result<(), Rejection<E>>),
}

/// The callback ends with this refusal.
pub open spec fn callback_refused<E>(
    a: LoginCallbackAction<E>,
    kind: ApiErrorKind,
    context: Seq<char>,
) -> bool {
    a matches LoginCallbackAction::Finish(Err(Rejection::Refused(f))) && is_failure(f, kind, context)
}

/// The callback ends passing on `e`.
pub open spec fn callback_failed<E>(a: LoginCallbackAction<E>, e: E) -> bool {
    a matches LoginCallbackAction::Finish(Err(Rejection::Failed(x))) && x == e
}

fn callback_fails<E>(e: E) -> (res: (LoginCallback, LoginCallbackAction<E>))
    ensures
        res.0 is Finished,
        callback_failed(res.1, e),
{
    (LoginCallback::Finished, LoginCallbackAction::Finish(Err(Rejection::Failed(e))))
}

impl LoginCallback {
    /// Starts handling the redirect back from the provider.
    pub fn begin<E>() -> (res: (LoginCallback, LoginCallbackAction<E>))
        ensures
            res.0 is TakingPendingLogin,
            res.1 is TakePendingLogin,
    {
        (LoginCallback::TakingPendingLogin, LoginCallbackAction::TakePendingLogin)
    }

    /// The event this step waits for.
    pub open spec fn awaits<E>(&self, event: &LoginCallbackEvent<E>) -> bool {
        match (self, event) {
            (LoginCallback::TakingPendingLogin, LoginCallbackEvent::PendingLoginTaken(_)) => true,
            (LoginCallback::FinishingLogin, LoginCallbackEvent::LoginFinished(_)) => true,
            (LoginCallback::OpeningTransaction { .. }, LoginCallbackEvent::TransactionOpened(_)) => true,
            (LoginCallback::FindingAccount { .. }, LoginCallbackEvent::AccountFound(_)) => true,
            (LoginCallback::UpdatingAccount { .. }, LoginCallbackEvent::AccountUpdated(_)) => true,
            (LoginCallback::ReloadingAccount, LoginCallbackEvent::AccountReloaded(_)) => true,
            (LoginCallback::CreatingAccount, LoginCallbackEvent::AccountCreated(_)) => true,
            (LoginCallback::Committing { .. }, LoginCallbackEvent::Committed(_)) => true,
            (LoginCallback::LoggingIn, LoginCallbackEvent::LoggedIn(_)) => true,
            _ => false,
        }
    }

    /// Takes the next step of the callback.  Without a pending login the
    /// request is bad.  The claims must make valid account data (see
    /// `insert_account_from_claims`).  An account already linked to the
    /// issuer and subject gets the new display name and must still exist
    /// when read back; otherwise a new account is created.  After the commit
    /// the session is logged in as that account.  Errors of the session, the
    /// provider and the database are passed on.
    pub fn advance<E>(self, event: LoginCallbackEvent<E>) -> (res: (
        LoginCallback,
        LoginCallbackAction<E>,
    ))
        requires
            self.awaits(&event),
        ensures
            match (self, event) {
                (LoginCallback::TakingPendingLogin, LoginCallbackEvent::PendingLoginTaken(r)) => match r {
                    Err(e) => res.0 is Finished && callback_failed(res.1, e),
                    Ok(false) => res.0 is Finished && callback_refused(
                        res.1,
                        ApiErrorKind::BadRequest,
                        "There is no unfinished login."@,
                    ),
                    Ok(true) => res.0 is FinishingLogin && res.1 is FinishLogin,
                },
                (LoginCallback::FinishingLogin, LoginCallbackEvent::LoginFinished(r)) => match r {
                    Err(e) => res.0 is Finished && callback_failed(res.1, e),
                    Ok(claims) => res.0 == (LoginCallback::OpeningTransaction { claims })
                        && res.1 is OpenTransaction,
                },
                (
                    LoginCallback::OpeningTransaction { claims },
                    LoginCallbackEvent::TransactionOpened(r),
                ) => match r {
                    Err(e) => res.0 is Finished && callback_failed(res.1, e),
                    Ok(()) => if let Some(problem) = claims_problem(claims) {
                        res.0 is Finished && callback_refused(
                            res.1,
                            ApiErrorKind::ServerError,
                            problem,
                        )
                    } else {
                        (res.0 matches LoginCallback::FindingAccount { data }
                            && data.issuer@ == claims.issuer@ && data.subject@ == claims.subject@
                            && data.display_name@ == claims.name->0@ && data.email@
                            == claims.email->0@) && (
                        res.1 matches LoginCallbackAction::FindAccountByOidc { issuer, subject }
                            && issuer@ == claims.issuer@ && subject@ == claims.subject@)
                    },
                },
                (LoginCallback::FindingAccount { data }, LoginCallbackEvent::AccountFound(r)) => match r {
                    Err(e) => res.0 is Finished && callback_failed(res.1, e),
                    Ok(Some(account)) => res.0 == (LoginCallback::UpdatingAccount { account }) && (
                    res.1 matches LoginCallbackAction::UpdateDisplayName {
                        account: a,
                        display_name,
                    } && a == account && display_name@ == data.display_name@),
                    Ok(None) => res.0 is CreatingAccount && (
                    res.1 matches LoginCallbackAction::CreateAccount(d) && d.display_name@
                        == data.display_name@ && d.email@ == data.email@ && d.issuer@
                        == data.issuer@ && d.subject@ == data.subject@),
                },
                (LoginCallback::UpdatingAccount { account }, LoginCallbackEvent::AccountUpdated(r)) => match r {
                    Err(e) => res.0 is Finished && callback_failed(res.1, e),
                    Ok(()) => res.0 is ReloadingAccount && res.1
                        == LoginCallbackAction::<E>::ReloadAccount(account),
                },
                (LoginCallback::ReloadingAccount, LoginCallbackEvent::AccountReloaded(r)) => match r {
                    Err(e) => res.0 is Finished && callback_failed(res.1, e),
                    Ok(None) => res.0 is Finished && callback_refused(
                        res.1,
                        ApiErrorKind::BadRequest,
                        "Account does not exist."@,
                    ),
                    Ok(Some(account)) => res.0 == (LoginCallback::Committing { account })
                        && res.1 is Commit,
                },
                (LoginCallback::CreatingAccount, LoginCallbackEvent::AccountCreated(r)) => match r {
                    Err(e) => res.0 is Finished && callback_failed(res.1, e),
                    Ok(account) => res.0 == (LoginCallback::Committing { account }) && res.1 is Commit,
                },
                (LoginCallback::Committing { account }, LoginCallbackEvent::Committed(r)) => match r {
                    Err(e) => res.0 is Finished && callback_failed(res.1, e),
                    Ok(()) => res.0 is LoggingIn && res.1 == LoginCallbackAction::<E>::SetLoggedIn(
                        account,
                    ),
                },
                (LoginCallback::LoggingIn, LoginCallbackEvent::LoggedIn(r)) => match r {
                    Err(e) => res.0 is Finished && callback_failed(res.1, e),
                    Ok(()) => res.0 is Finished && (res.1 matches LoginCallbackAction::Finish(o)
                        && o is Ok),
                },
                _ => false,
            },
    {
        match (self, event) {
            (LoginCallback::TakingPendingLogin, LoginCallbackEvent::PendingLoginTaken(r)) => match r {
                Err(e) => callback_fails(e),
                Ok(false) => (
                    LoginCallback::Finished,
                    LoginCallbackAction::Finish(
                        Err(
                            Rejection::Refused(
                                failure(ApiErrorKind::BadRequest, "There is no unfinished login."),
                            ),
                        ),
                    ),
                ),
                Ok(true) => (LoginCallback::FinishingLogin, LoginCallbackAction::FinishLogin),
            },
            (LoginCallback::FinishingLogin, LoginCallbackEvent::LoginFinished(r)) => match r {
                Err(e) => callback_fails(e),
                Ok(claims) => (
                    LoginCallback::OpeningTransaction { claims },
                    LoginCallbackAction::OpenTransaction,
                ),
            },
            (LoginCallback::OpeningTransaction { claims }, LoginCallbackEvent::TransactionOpened(r)) => match r {
                Err(e) => callback_fails(e),
                Ok(()) => match insert_account_from_claims(claims) {
                    Err(f) => (
                        LoginCallback::Finished,
                        LoginCallbackAction::Finish(Err(Rejection::Refused(f))),
                    ),
                    Ok(data) => {
                        let issuer = data.issuer.to_string();
                        let subject = data.subject.to_string();
                        (
                            LoginCallback::FindingAccount { data },
                            LoginCallbackAction::FindAccountByOidc { issuer, subject },
                        )
                    },
                },
            },
            (LoginCallback::FindingAccount { data }, LoginCallbackEvent::AccountFound(r)) => match r {
                Err(e) => callback_fails(e),
                Ok(Some(account)) => (
                    LoginCallback::UpdatingAccount { account },
                    LoginCallbackAction::UpdateDisplayName {
                        account,
                        display_name: data.display_name,
                    },
                ),
                Ok(None) => (LoginCallback::CreatingAccount, LoginCallbackAction::CreateAccount(data)),
            },
            (LoginCallback::UpdatingAccount { account }, LoginCallbackEvent::AccountUpdated(r)) => match r {
                Err(e) => callback_fails(e),
                Ok(()) => (LoginCallback::ReloadingAccount, LoginCallbackAction::ReloadAccount(account)),
            },
            (LoginCallback::ReloadingAccount, LoginCallbackEvent::AccountReloaded(r)) => match r {
                Err(e) => callback_fails(e),
                Ok(None) => (
                    LoginCallback::Finished,
                    LoginCallbackAction::Finish(
                        Err(
                            Rejection::Refused(
                                failure(ApiErrorKind::BadRequest, "Account does not exist."),
                            ),
                        ),
                    ),
                ),
                Ok(Some(account)) => (LoginCallback::Committing { account }, LoginCallbackAction::Commit),
            },
            (LoginCallback::CreatingAccount, LoginCallbackEvent::AccountCreated(r)) => match r {
                Err(e) => callback_fails(e),
                Ok(account) => (LoginCallback::Committing { account }, LoginCallbackAction::Commit),
            },
            (LoginCallback::Committing { account }, LoginCallbackEvent::Committed(r)) => match r {
                Err(e) => callback_fails(e),
                Ok(()) => (LoginCallback::LoggingIn, LoginCallbackAction::SetLoggedIn(account)),
            },
            (LoginCallback::LoggingIn, LoginCallbackEvent::LoggedIn(r)) => match r {
                Err(e) => callback_fails(e),
                Ok(()) => (LoginCallback::Finished, LoginCallbackAction::Finish(Ok(()))),
            },
            _ => {
                proof {
                    assert(false);
                }
                (LoginCallback::Finished, LoginCallbackAction::Finish(Ok(())))
            },
        }
    }
}

// ---------------------------------------------------------------- discovery

/// Why discovering the provider failed.
pub enum DiscoveryFailure {
    /// The provider's metadata does not name a token endpoint.
    MissingTokenUrl,
}

/// The message of a discovery failure.
pub open spec fn discovery_failure_message(f: DiscoveryFailure) -> Seq<char> {
    match f {
        DiscoveryFailure::MissingTokenUrl => "Issuer did not provide a token url"@,
    }
}

impl DiscoveryFailure {
    /// The message of the failure.
    pub fn message(&self) -> (res: String)
        ensures
            res@ == discovery_failure_message(*self),
    {
        match self {
            DiscoveryFailure::MissingTokenUrl => "Issuer did not provide a token url".to_owned(),
        }
    }
}

/// The token endpoint of a discovered provider, which the login needs.
pub fn require_token_url<T>(token_url: Option<T>) -> (res: Result<T, DiscoveryFailure>)
    ensures
        match token_url {
            Some(u) => res == Ok::<T, DiscoveryFailure>(u),
            None => res matches Err(DiscoveryFailure::MissingTokenUrl),
        },
{
    match token_url {
        Some(u) => Ok(u),
        None => Err(DiscoveryFailure::MissingTokenUrl),
    }
}

/// Progress of discovering the provider, retried after timeouts.
pub struct DiscoveryRetry {
    /// How many attempts may be made.
    pub max_attempts: usize,
    /// How many attempts were made.
    pub attempts: usize,
}

/// What to do after an attempt.
pub enum RetryAction {
    /// Try to discover the provider (again).
    Discover,
    /// Stop and hand out the outcome of the last attempt.
    ReturnLast,
    /// Stop after every allowed attempt timed out, handing out the last one.
    GiveUp,
    /// Stop without any attempt: no attempt was allowed.
    NoAttempt,
}

impl DiscoveryRetry {
    /// Starts discovering with at most `max_attempts` attempts.
    pub fn begin(max_attempts: usize) -> (res: (DiscoveryRetry, RetryAction))
        ensures
            res.0.max_attempts == max_attempts,
            res.0.attempts == 0,
            if max_attempts == 0 {
                res.1 is NoAttempt
            } else {
                res.1 is Discover
            },
    {
        let state = DiscoveryRetry { max_attempts, attempts: 0 };
        if max_attempts == 0 {
            (state, RetryAction::NoAttempt)
        } else {
            (state, RetryAction::Discover)
        }
    }

    /// After an attempt: only a timeout is retried, and only while attempts
    /// are left; any other outcome, success or error, is handed out at once.
    pub fn attempt_done(self, timed_out: bool) -> (res: (DiscoveryRetry, RetryAction))
        requires
            self.attempts < self.max_attempts,
        ensures
            res.0.max_attempts == self.max_attempts,
            res.0.attempts == self.attempts + 1,
            res.0.attempts <= res.0.max_attempts,
            if !timed_out {
                res.1 is ReturnLast
            } else if res.0.attempts < res.0.max_attempts {
                res.1 is Discover
            } else {
                res.1 is GiveUp
            },
    {
        let state = DiscoveryRetry { max_attempts: self.max_attempts, attempts: self.attempts + 1 };
        if !timed_out {
            (state, RetryAction::ReturnLast)
        } else if state.attempts < state.max_attempts {
            (state, RetryAction::Discover)
        } else {
            (state, RetryAction::GiveUp)
        }
    }
}

} // verus!
