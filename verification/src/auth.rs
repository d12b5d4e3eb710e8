//! Authentication of HTTP requests through the session.
//!
//! A logged-in session stores the UUID of its account.  A request is
//! authenticated when its session holds the UUID of an existing account; a
//! session that names an account which no longer exists forgets it.
use std::ops::ControlFlow;

use vstd::prelude::*;

use crate::account::{Account, AccountUuid};
use crate::api::{ApiErrorKind, ApiFailure, Rejection};
use crate::ids::BusinessModelUuid;

verus! {

/// The session key under which the UUID of the logged-in account is stored.
pub fn account_session_key() -> (res: &'static str)
    ensures
        res@ == "current_account"@,
{
    "current_account"
}

/// Where the authentication of a request stands.
pub enum AccountExtraction {
    /// Waiting for the account UUID stored in the session.
    ReadingAccountUuid,
    /// Waiting for the account with that UUID.
    LoadingAccount,
    /// Waiting for the stale UUID to be removed from the session.
    RemovingAccountUuid,
    /// Waiting for the session to be saved.
    SavingSession,
    /// Done.
    Finished,
}

/// What the caller observed when it carried out the last action.
pub enum ExtractionEvent<E> {
    /// The UUID stored in the session, if any.
    AccountUuidRead(Result<Option<u128>, E>),
    /// The account with that UUID, if any.
    AccountLoaded(Result<Option<Account>, E>),
    /// The UUID was removed from the session.
    AccountUuidRemoved(Result<(), E>),
    /// The session was saved.
    SessionSaved(Result<(), E>),
}

/// What the caller is to do next.
pub enum ExtractionAction<E> {
    /// Read the account UUID from the session.
    ReadAccountUuid,
    /// Load the account with this UUID.
    LoadAccount(AccountUuid),
    /// Remove the account UUID from the session.
    RemoveAccountUuid,
    /// Save the session.
    SaveSession,
    /// Remember the account for the rest of the request, and accept it.
    CacheAndAccept(Account),
    /// Stop with this outcome.
    Finish(Result<Account, Rejection<E>>),
}

/// A refusal with the given status and message.
pub open spec fn refusal<E>(kind: ApiErrorKind, context: Seq<char>, a: ExtractionAction<E>) -> bool {
    a matches ExtractionAction::Finish(Err(Rejection::Refused(f))) && f.kind == kind && f.context@
        == context
}

/// An outside error passed on.
pub open spec fn passed_on<E>(e: E, a: ExtractionAction<E>) -> bool {
    a matches ExtractionAction::Finish(Err(Rejection::Failed(x))) && x == e
}

impl AccountExtraction {
    /// Starts authenticating a request: an account already found earlier in
    /// the same request is accepted at once; a request without a session is
    /// a server error; otherwise the session is asked for the account UUID.
    pub fn begin<E>(cached: Option<Account>, has_session: bool) -> (res: (
        AccountExtraction,
        ExtractionAction<E>,
    ))
        ensures
            match cached {
                Some(a) => res.0 is Finished && res.1 == ExtractionAction::<E>::Finish(Ok(a)),
                None => if has_session {
                    res.0 is ReadingAccountUuid && res.1 is ReadAccountUuid
                } else {
                    res.0 is Finished && refusal(
                        ApiErrorKind::ServerError,
                        "Can't extract session."@,
                        res.1,
                    )
                },
            },
    {
        match cached {
            Some(a) => (AccountExtraction::Finished, ExtractionAction::Finish(Ok(a))),
            None => if has_session {
                (AccountExtraction::ReadingAccountUuid, ExtractionAction::ReadAccountUuid)
            } else {
                (
                    AccountExtraction::Finished,
                    ExtractionAction::Finish(
                        Err(
                            Rejection::Refused(
                                ApiFailure {
                                    kind: ApiErrorKind::ServerError,
                                    context: "Can't extract session.",
                                },
                            ),
                        ),
                    ),
                )
            },
        }
    }

    /// The event this step waits for.
    pub open spec fn awaits<E>(&self, event: &ExtractionEvent<E>) -> bool {
        match (self, event) {
            (AccountExtraction::ReadingAccountUuid, ExtractionEvent::AccountUuidRead(_)) => true,
            (AccountExtraction::LoadingAccount, ExtractionEvent::AccountLoaded(_)) => true,
            (AccountExtraction::RemovingAccountUuid, ExtractionEvent::AccountUuidRemoved(_)) => true,
            (AccountExtraction::SavingSession, ExtractionEvent::SessionSaved(_)) => true,
            _ => false,
        }
    }

    /// Takes the next step: a session without an account UUID is
    /// unauthorized; an existing account is accepted; a UUID whose account
    /// does not exist is removed from the session, the session saved, and the
    /// request refused as unauthorized.  Errors of the session store or the
    /// database are passed on.
    pub fn advance<E>(self, event: ExtractionEvent<E>) -> (res: (
        AccountExtraction,
        ExtractionAction<E>,
    ))
        requires
            self.awaits(&event),
        ensures
            match event {
                ExtractionEvent::AccountUuidRead(r) => match r {
                    Err(e) => res.0 is Finished && passed_on(e, res.1),
                    Ok(None) => res.0 is Finished && refusal(
                        ApiErrorKind::Unauthorized,
                        "Missing account uuid in session"@,
                        res.1,
                    ),
                    Ok(Some(uuid)) => res.0 is LoadingAccount && (
                    res.1 matches ExtractionAction::LoadAccount(id) && id.inner() == uuid),
                },
                ExtractionEvent::AccountLoaded(r) => match r {
                    Err(e) => res.0 is Finished && passed_on(e, res.1),
                    Ok(None) => res.0 is RemovingAccountUuid && res.1 is RemoveAccountUuid,
                    Ok(Some(a)) => res.0 is Finished && res.1 == ExtractionAction::<
                        E,
                    >::CacheAndAccept(a),
                },
                ExtractionEvent::AccountUuidRemoved(r) => match r {
                    Err(e) => res.0 is Finished && passed_on(e, res.1),
                    Ok(()) => res.0 is SavingSession && res.1 is SaveSession,
                },
                ExtractionEvent::SessionSaved(r) => match r {
                    Err(e) => res.0 is Finished && passed_on(e, res.1),
                    Ok(()) => res.0 is Finished && refusal(
                        ApiErrorKind::Unauthorized,
                        "Unknown account uuid in session"@,
                        res.1,
                    ),
                },
            },
    {
        match event {
            ExtractionEvent::AccountUuidRead(r) => match r {
                Err(e) => (AccountExtraction::Finished, ExtractionAction::Finish(Err(Rejection::Failed(e)))),
                Ok(None) => (
                    AccountExtraction::Finished,
                    ExtractionAction::Finish(
                        Err(
                            Rejection::Refused(
                                ApiFailure {
                                    kind: ApiErrorKind::Unauthorized,
                                    context: "Missing account uuid in session",
                                },
                            ),
                        ),
                    ),
                ),
                Ok(Some(uuid)) => (
                    AccountExtraction::LoadingAccount,
                    ExtractionAction::LoadAccount(AccountUuid::new_from_model(uuid)),
                ),
            },
            ExtractionEvent::AccountLoaded(r) => match r {
                Err(e) => (AccountExtraction::Finished, ExtractionAction::Finish(Err(Rejection::Failed(e)))),
                Ok(None) => (AccountExtraction::RemovingAccountUuid, ExtractionAction::RemoveAccountUuid),
                Ok(Some(a)) => (AccountExtraction::Finished, ExtractionAction::CacheAndAccept(a)),
            },
            ExtractionEvent::AccountUuidRemoved(r) => match r {
                Err(e) => (AccountExtraction::Finished, ExtractionAction::Finish(Err(Rejection::Failed(e)))),
                Ok(()) => (AccountExtraction::SavingSession, ExtractionAction::SaveSession),
            },
            ExtractionEvent::SessionSaved(r) => match r {
                Err(e) => (AccountExtraction::Finished, ExtractionAction::Finish(Err(Rejection::Failed(e)))),
                Ok(()) => (
                    AccountExtraction::Finished,
                    ExtractionAction::Finish(
                        Err(
                            Rejection::Refused(
                                ApiFailure {
                                    kind: ApiErrorKind::Unauthorized,
                                    context: "Unknown account uuid in session",
                                },
                            ),
                        ),
                    ),
                ),
            },
        }
    }
}

/// Middleware that lets only authenticated requests through.
#[derive(Clone, Copy, Debug)]
pub struct AuthRequiredLayer;

impl AuthRequiredLayer {
    /// Continues with the request when an account could be extracted from it,
    /// and answers with the rejection otherwise.
    pub fn pre_handler<R>(&self, extracted: Result<Account, R>) -> (res: ControlFlow<R, ()>)
        ensures
            match extracted {
                Ok(_) => res == ControlFlow::<R, ()>::Continue(()),
                Err(r) => res == ControlFlow::<R, ()>::Break(r),
            },
    {
        match extracted {
            Ok(_account) => ControlFlow::Continue(()),
            Err(rejection) => ControlFlow::Break(rejection),
        }
    }
}

} // verus!
