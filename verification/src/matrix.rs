//! What the matrix bot does with the events of its rooms.
//!
//! The bot joins rooms it is invited to, answers `!template` with the
//! format of a ticket request, and turns `!ticket` messages into tickets.
//! Talking to the homeserver and to the database is left to the caller:
//! the functions here decide, from what the caller observed, what happens
//! next.
use vstd::prelude::*;

use crate::account::AccountUuid;
use crate::bounded::{fits, BoundedStr};
use vstd::string::StringExecFns;

use crate::text::{contains, starts_with, str_contains, str_eq, str_starts_with, trim, trim_ws};
use crate::ticket::CreateTicket;
use crate::ticket_command::{parse_ticket_command, ticket_groups};

verus! {

/// Errors that can occur while handling a ticket request.
pub enum TicketHandlerErrors {
    /// A database operation failed; the text describes the failure.
    Database(String),
    /// The sender has no account.
    AccountNotFound,
    /// The message is not a well-formed ticket request.
    ParseBody,
    /// The heading is longer than 255 bytes.
    HeadingTooLong,
    /// The body is longer than 1024 bytes.
    BodyTooLong,
}

/// The message shown to the user for each error.
pub open spec fn user_message(e: TicketHandlerErrors) -> Seq<char> {
    match e {
        TicketHandlerErrors::AccountNotFound => "Account not found"@,
        TicketHandlerErrors::ParseBody =>
            "Failed to parse body, please use !template to get the correct template."@,
        TicketHandlerErrors::HeadingTooLong => "Heading too long, only 255 characters allowed"@,
        TicketHandlerErrors::BodyTooLong => "Body too long, you can only have 1024 characters"@,
        TicketHandlerErrors::Database(_) => "Database error please contact your admin"@,
    }
}

impl TicketHandlerErrors {
    /// Converts the error to a user-friendly message.
    pub fn to_user_message(&self) -> (res: String)
        ensures
            res@ == user_message(*self),
    {
        match self {
            TicketHandlerErrors::AccountNotFound => "Account not found".to_owned(),
            TicketHandlerErrors::ParseBody =>
                "Failed to parse body, please use !template to get the correct template.".to_owned(),
            TicketHandlerErrors::HeadingTooLong =>
                "Heading too long, only 255 characters allowed".to_owned(),
            TicketHandlerErrors::BodyTooLong =>
                "Body too long, you can only have 1024 characters".to_owned(),
            TicketHandlerErrors::Database(_) => "Database error please contact your admin".to_owned(),
        }
    }
}

/// The template that `!template` is answered with (markdown). Its closing
/// note names `---`, while the separator that `parse_ticket_command` accepts
/// is `+++`, as the example in the same text shows.
pub open spec fn template_text() -> Seq<char> {
    "\u{1f3ab} **Ticket Template**\n\nUse this exact format:\n```\n!ticket\nYour Heading Here\n+++\nYour detailed description goes here.\nIt can span multiple lines.\n+++\nJohn Doe\n```\n\n**Note:** Use `---` on its own line to separate the sections.\n*Limits: Heading 255 chars, Body 1024 chars.*"@
}

/// The answer to a successful ticket request.
pub open spec fn ticket_created_text() -> Seq<char> {
    "Ticket created successfully"@
}

/// What to do about a message posted in a room.
pub enum RoomMessageAction {
    /// Nothing.
    Ignore,
    /// Answer with this markdown text.
    SendTemplate(String),
    /// Handle the message as a ticket request.
    HandleTicketRequest,
}

/// Handles room messages.
pub struct RoomMessage;

impl RoomMessage {
    /// Decides what to do about a message: `joined` tells whether the bot is a
    /// member of the room, `text` is the message's body when it is a text
    /// message.  Only text messages in joined rooms are answered: the body,
    /// without surrounding white space, `!template` asks for the template and
    /// anything that begins with `!ticket` is a ticket request.
    pub fn on_room_message(joined: bool, text: Option<&str>) -> (res: RoomMessageAction)
        ensures
            match text {
                Some(body) if joined => {
                    let b = trim_ws(body@);
                    if b == "!template"@ {
                        res matches RoomMessageAction::SendTemplate(m) && m@ == template_text()
                    } else if starts_with(b, "!ticket"@) {
                        res is HandleTicketRequest
                    } else {
                        res is Ignore
                    }
                },
                _ => res is Ignore,
            },
    {
        if !joined {
            return RoomMessageAction::Ignore;
        }
        match text {
            None => RoomMessageAction::Ignore,
            Some(body) => {
                let body = trim(body);
                if str_eq(body.as_str(), "!template") {
                    RoomMessageAction::SendTemplate(
                        "\u{1f3ab} **Ticket Template**\n\nUse this exact format:\n```\n!ticket\nYour Heading Here\n+++\nYour detailed description goes here.\nIt can span multiple lines.\n+++\nJohn Doe\n```\n\n**Note:** Use `---` on its own line to separate the sections.\n*Limits: Heading 255 chars, Body 1024 chars.*".to_owned(),
                    )
                } else if str_starts_with(body.as_str(), "!ticket") {
                    RoomMessageAction::HandleTicketRequest
                } else {
                    RoomMessageAction::Ignore
                }
            },
        }
    }

    /// The answer to a handled ticket request.
    pub fn reply_text(result: &Result<(), TicketHandlerErrors>) -> (res: String)
        ensures
            match result {
                Ok(()) => res@ == ticket_created_text(),
                Err(e) => res@ == user_message(*e),
            },
    {
        match result {
            Ok(()) => "Ticket created successfully".to_owned(),
            Err(e) => e.to_user_message(),
        }
    }

    /// Starts handling a ticket request posted as `text` by the matrix user
    /// `sender`: the first step is to open a database transaction.
    pub fn handle_ticket_request(text: String, sender: String) -> (res: (
        TicketRequest,
        TicketRequestAction,
    ))
        ensures
            res.0 == (TicketRequest::OpeningTransaction { text, sender }),
            res.1 is OpenTransaction,
    {
        (TicketRequest::OpeningTransaction { text, sender }, TicketRequestAction::OpenTransaction)
    }
}

/// Where the handling of a ticket request stands.
pub enum TicketRequest {
    /// Waiting for a database transaction.
    OpeningTransaction { text: String, sender: String },
    /// Waiting for the account of the sender.
    FindingCreator { text: String },
    /// Waiting for the account the ticket is to be assigned to.
    FindingAssignee { creator: AccountUuid, heading: String, body: String },
    /// Waiting for the ticket to be stored.
    Creating,
    /// Waiting for the transaction to be committed.
    Committing,
    /// Done.
    Finished,
}

/// What the caller observed when it carried out the last action.
pub enum TicketRequestEvent {
    /// The transaction was opened, or the error why not.
    TransactionOpened(Result<(), String>),
    /// The account with the sender's matrix id, if any.
    CreatorFound(Result<Option<AccountUuid>, String>),
    /// The account with the requested display name, if any.
    AssigneeFound(Result<Option<AccountUuid>, String>),
    /// The ticket was stored, or the error why not.
    TicketCreated(Result<(), String>),
    /// The transaction was committed, or the error why not.
    Committed(Result<(), String>),
}

/// What the caller is to do next.
pub enum TicketRequestAction {
    /// Open a database transaction.
    OpenTransaction,
    /// Look up the account with this matrix user id.
    FindAccountByMatrixId(String),
    /// Look up the account with this display name.
    FindAccountByDisplayName(String),
    /// Store this ticket.
    CreateTicket(CreateTicket),
    /// Commit the transaction.
    Commit,
    /// Stop, with this outcome; an error drops the transaction.
    Finish(Result<(), TicketHandlerErrors>),
}

/// The outcome of a failed database operation.
pub open spec fn database_failure(e: String) -> TicketRequestAction {
    TicketRequestAction::Finish(Err(TicketHandlerErrors::Database(e)))
}

impl TicketRequest {
    /// The event this step waits for.
    pub open spec fn awaits(&self, event: &TicketRequestEvent) -> bool {
        match (self, event) {
            (TicketRequest::OpeningTransaction { .. }, TicketRequestEvent::TransactionOpened(_)) => true,
            (TicketRequest::FindingCreator { .. }, TicketRequestEvent::CreatorFound(_)) => true,
            (TicketRequest::FindingAssignee { .. }, TicketRequestEvent::AssigneeFound(_)) => true,
            (TicketRequest::Creating, TicketRequestEvent::TicketCreated(_)) => true,
            (TicketRequest::Committing, TicketRequestEvent::Committed(_)) => true,
            _ => false,
        }
    }

    /// Takes the next step of a ticket request.
    ///
    /// The request needs an open transaction and an account for the sender;
    /// the message must hold a ticket request (see `ticket_groups`); the
    /// account named as assignee is looked up (none found leaves the ticket
    /// unassigned); the heading and body, without surrounding white space,
    /// must fit 255 and 1024 bytes; then the ticket is stored and the
    /// transaction committed.  Any database error ends the request.
    pub fn advance(self, event: TicketRequestEvent) -> (res: (TicketRequest, TicketRequestAction))
        requires
            self.awaits(&event),
        ensures
            match (self, event) {
                (
                    TicketRequest::OpeningTransaction { text, sender },
                    TicketRequestEvent::TransactionOpened(r),
                ) => match r {
                    Err(e) => res.0 is Finished && res.1 == database_failure(e),
                    Ok(()) => res.0 == (TicketRequest::FindingCreator { text })
                        && res.1 == TicketRequestAction::FindAccountByMatrixId(sender),
                },
                (TicketRequest::FindingCreator { text }, TicketRequestEvent::CreatorFound(r)) => match r {
                    Err(e) => res.0 is Finished && res.1 == database_failure(e),
                    Ok(None) => res.0 is Finished && res.1 == TicketRequestAction::Finish(
                        Err(TicketHandlerErrors::AccountNotFound),
                    ),
                    Ok(Some(creator)) => match ticket_groups(text@) {
                        None => res.0 is Finished && res.1 == TicketRequestAction::Finish(
                            Err(TicketHandlerErrors::ParseBody),
                        ),
                        Some((h, b, a)) => (res.0 matches TicketRequest::FindingAssignee {
                            creator: c,
                            heading,
                            body,
                        } && c == creator && heading@ == h && body@ == b) && (
                        res.1 matches TicketRequestAction::FindAccountByDisplayName(name)
                            && name@ == a),
                    },
                },
                (
                    TicketRequest::FindingAssignee { creator, heading, body },
                    TicketRequestEvent::AssigneeFound(r),
                ) => match r {
                    Err(e) => res.0 is Finished && res.1 == database_failure(e),
                    Ok(assignee) => if !fits(trim_ws(heading@), 255) {
                        res.0 is Finished && res.1 == TicketRequestAction::Finish(
                            Err(TicketHandlerErrors::HeadingTooLong),
                        )
                    } else if !fits(trim_ws(body@), 1024) {
                        res.0 is Finished && res.1 == TicketRequestAction::Finish(
                            Err(TicketHandlerErrors::BodyTooLong),
                        )
                    } else {
                        res.0 is Creating && (res.1 matches TicketRequestAction::CreateTicket(t)
                            && t.created_by == creator && t.assigned_to == assignee
                            && t.heading@ == trim_ws(heading@) && t.body@ == trim_ws(body@))
                    },
                },
                (TicketRequest::Creating, TicketRequestEvent::TicketCreated(r)) => match r {
                    Err(e) => res.0 is Finished && res.1 == database_failure(e),
                    Ok(()) => res.0 is Committing && res.1 is Commit,
                },
                (TicketRequest::Committing, TicketRequestEvent::Committed(r)) => match r {
                    Err(e) => res.0 is Finished && res.1 == database_failure(e),
                    Ok(()) => res.0 is Finished && res.1 == TicketRequestAction::Finish(Ok(())),
                },
                _ => false,
            },
    {
        match (self, event) {
            (
                TicketRequest::OpeningTransaction { text, sender },
                TicketRequestEvent::TransactionOpened(r),
            ) => match r {
                Err(e) => (TicketRequest::Finished, fail(e)),
                Ok(()) => (
                    TicketRequest::FindingCreator { text },
                    TicketRequestAction::FindAccountByMatrixId(sender),
                ),
            },
            (TicketRequest::FindingCreator { text }, TicketRequestEvent::CreatorFound(r)) => match r {
                Err(e) => (TicketRequest::Finished, fail(e)),
                Ok(None) => (
                    TicketRequest::Finished,
                    TicketRequestAction::Finish(Err(TicketHandlerErrors::AccountNotFound)),
                ),
                Ok(Some(creator)) => match parse_ticket_command(text.as_str()) {
                    None => (
                        TicketRequest::Finished,
                        TicketRequestAction::Finish(Err(TicketHandlerErrors::ParseBody)),
                    ),
                    Some(captures) => (
                        TicketRequest::FindingAssignee {
                            creator,
                            heading: captures.heading,
                            body: captures.body,
                        },
                        TicketRequestAction::FindAccountByDisplayName(captures.assignee),
                    ),
                },
            },
            (
                TicketRequest::FindingAssignee { creator, heading, body },
                TicketRequestEvent::AssigneeFound(r),
            ) => match r {
                Err(e) => (TicketRequest::Finished, fail(e)),
                Ok(assignee) => {
                    let heading = match BoundedStr::<255>::new(trim(heading.as_str())) {
                        Ok(h) => h,
                        Err(_) => {
                            return (
                                TicketRequest::Finished,
                                TicketRequestAction::Finish(
                                    Err(TicketHandlerErrors::HeadingTooLong),
                                ),
                            );
                        },
                    };
                    let body = match BoundedStr::<1024>::new(trim(body.as_str())) {
                        Ok(b) => b,
                        Err(_) => {
                            return (
                                TicketRequest::Finished,
                                TicketRequestAction::Finish(Err(TicketHandlerErrors::BodyTooLong)),
                            );
                        },
                    };
                    (
                        TicketRequest::Creating,
                        TicketRequestAction::CreateTicket(
                            CreateTicket { created_by: creator, assigned_to: assignee, heading, body },
                        ),
                    )
                },
            },
            (TicketRequest::Creating, TicketRequestEvent::TicketCreated(r)) => match r {
                Err(e) => (TicketRequest::Finished, fail(e)),
                Ok(()) => (TicketRequest::Committing, TicketRequestAction::Commit),
            },
            (TicketRequest::Committing, TicketRequestEvent::Committed(r)) => match r {
                Err(e) => (TicketRequest::Finished, fail(e)),
                Ok(()) => (TicketRequest::Finished, TicketRequestAction::Finish(Ok(()))),
            },
            _ => {
                proof {
                    assert(false);
                }
                (TicketRequest::Finished, TicketRequestAction::Finish(Ok(())))
            },
        }
    }
}

fn fail(e: String) -> (res: TicketRequestAction)
    ensures
        res == database_failure(e),
{
    TicketRequestAction::Finish(Err(TicketHandlerErrors::Database(e)))
}

/// Handles room invites.
pub struct RoomInvite;

impl RoomInvite {
    /// Whether to accept an invite: only invites addressed to the bot's own
    /// user (`own_user_id`, unknown before login) are accepted.
    pub fn on_room_invite(own_user_id: Option<&str>, state_key: &str) -> (res: bool)
        ensures
            res == (own_user_id matches Some(id) && id@ == state_key@),
    {
        match own_user_id {
            Some(id) => str_eq(id, state_key),
            None => false,
        }
    }
}

/// The first, simpler set of room event handlers.
pub struct EventHandlers;

impl EventHandlers {
    /// Whether to accept an invite: only invites addressed to the bot itself.
    pub fn on_room_invite(own_user_id: Option<&str>, state_key: &str) -> (res: bool)
        ensures
            res == (own_user_id matches Some(id) && id@ == state_key@),
    {
        RoomInvite::on_room_invite(own_user_id, state_key)
    }

    /// The acknowledgement to post for a message: text messages in joined
    /// rooms that mention `!ticket` anywhere are answered "Received ticket".
    pub fn on_room_message(joined: bool, text: Option<&str>) -> (res: Option<String>)
        ensures
            match text {
                Some(body) if joined && contains(body@, "!ticket"@) => res matches Some(r) && r@
                    == "Received ticket"@,
                _ => res is None,
            },
    {
        if !joined {
            return None;
        }
        match text {
            Some(body) => if str_contains(body, "!ticket") {
                Some("Received ticket".to_owned())
            } else {
                None
            },
            None => None,
        }
    }
}

/// How an error of ticket handling reads in the logs.
pub open spec fn error_description(e: TicketHandlerErrors) -> Seq<char> {
    match e {
        TicketHandlerErrors::Database(d) => "Database error: "@ + d@,
        TicketHandlerErrors::AccountNotFound => "Account not found"@,
        TicketHandlerErrors::ParseBody => "Failed to parse body"@,
        TicketHandlerErrors::HeadingTooLong => "Heading too long. Max length is 255 characters."@,
        TicketHandlerErrors::BodyTooLong => "Body too long. Max length is 1024 characters."@,
    }
}

impl TicketHandlerErrors {
    /// How the error reads in the logs.
    pub fn describe(&self) -> (res: String)
        ensures
            res@ == error_description(*self),
    {
        match self {
            TicketHandlerErrors::Database(d) => {
                let mut out = "Database error: ".to_owned();
                out.append(d.as_str());
                out
            },
            TicketHandlerErrors::AccountNotFound => "Account not found".to_owned(),
            TicketHandlerErrors::ParseBody => "Failed to parse body".to_owned(),
            TicketHandlerErrors::HeadingTooLong =>
                "Heading too long. Max length is 255 characters.".to_owned(),
            TicketHandlerErrors::BodyTooLong =>
                "Body too long. Max length is 1024 characters.".to_owned(),
        }
    }
}

// ---------------------------------------------------------------- client

/// All errors that can occur while connecting the matrix client; each
/// carries the error of the step that failed.
pub enum MatrixClientError<E> {
    /// Building the client failed.
    Build(E),
    /// Serializing the session failed.
    SessionSerialize(E),
    /// Parsing the stored session failed.
    SessionParse(E),
    /// Reading the stored session failed.
    SessionRead(E),
    /// Storing the session failed.
    SessionPersist(E),
    /// Restoring the session failed.
    SessionRestore(E),
    /// Logging in failed.
    Login(E),
    /// Syncing with the homeserver failed.
    Sync(E),
}

/// The message of each client error.
pub open spec fn client_error_message<E>(e: MatrixClientError<E>) -> Seq<char> {
    match e {
        MatrixClientError::Build(_) => "Failed to build matrix client"@,
        MatrixClientError::SessionSerialize(_) => "Failed to serialize session"@,
        MatrixClientError::SessionParse(_) => "Failed to parse session"@,
        MatrixClientError::SessionRead(_) => "Failed to read session"@,
        MatrixClientError::SessionPersist(_) => "Failed to persist session"@,
        MatrixClientError::SessionRestore(_) => "Failed to restore session"@,
        MatrixClientError::Login(_) => "Failed to login"@,
        MatrixClientError::Sync(_) => "Failed to sync with matrix"@,
    }
}

impl<E> MatrixClientError<E> {
    /// The message of the error.
    pub fn message(&self) -> (res: &'static str)
        ensures
            res@ == client_error_message(*self),
    {
        match self {
            MatrixClientError::Build(_) => "Failed to build matrix client",
            MatrixClientError::SessionSerialize(_) => "Failed to serialize session",
            MatrixClientError::SessionParse(_) => "Failed to parse session",
            MatrixClientError::SessionRead(_) => "Failed to read session",
            MatrixClientError::SessionPersist(_) => "Failed to persist session",
            MatrixClientError::SessionRestore(_) => "Failed to restore session",
            MatrixClientError::Login(_) => "Failed to login",
            MatrixClientError::Sync(_) => "Failed to sync with matrix",
        }
    }
}

/// Where connecting the matrix client stands.
pub enum MatrixConnect {
    /// Waiting for the client to be built.
    Building,
    /// Waiting to learn whether a session was stored.
    CheckingSessionFile,
    /// Waiting for the stored session to be read.
    ReadingSession,
    /// Waiting for the stored session to be parsed.
    ParsingSession,
    /// Waiting for the session to be restored.
    RestoringSession,
    /// Waiting for the login with user name and password.
    LoggingIn,
    /// Waiting for the store directory to be created.
    CreatingStoreDir,
    /// Waiting for the new session to be serialized.
    SerializingSession,
    /// Waiting for the new session to be written.
    WritingSession,
    /// Waiting for the first sync.
    Syncing,
    /// Done.
    Finished,
}

/// What the caller observed when it carried out the last action.
pub enum MatrixConnectEvent<E> {
    /// The client was built.
    ClientBuilt(Result<(), E>),
    /// Whether the session file exists.
    SessionFileChecked(bool),
    /// The session file was read.
    SessionRead(Result<(), E>),
    /// The session was parsed.
    SessionParsed(Result<(), E>),
    /// The session was restored.
    SessionRestored(Result<(), E>),
    /// The login went through; `true` when it produced a session to keep.
    LoggedIn(Result<bool, E>),
    /// The store directory was created.
    StoreDirCreated(Result<(), E>),
    /// The session was serialized.
    SessionSerialized(Result<(), E>),
    /// The session was written to its file.
    SessionWritten(Result<(), E>),
    /// The first sync finished, with its sync token.
    Synced(Result<String, E>),
}

/// What the caller is to do next.
pub enum MatrixConnectAction<E> {
    /// Build the client for the homeserver, with its SQLite store.
    BuildClient,
    /// Check whether the session file exists.
    CheckSessionFile,
    /// Read the session file.
    ReadSession,
    /// Parse the session read.
    ParseSession,
    /// Restore the parsed session.
    RestoreSession,
    /// Log in with user name and password.
    LogIn,
    /// Create the store directory.
    CreateStoreDir,
    /// Serialize the new session.
    SerializeSession,
    /// Write the serialized session to the session file.
    WriteSession,
    /// Register the room event handlers and sync once.
    RegisterHandlersAndSync,
    /// Stop: `Ok` hands out the sync token.
    Finish(Result<String, MatrixClientError<E>>),
}

impl MatrixConnect {
    /// Starts connecting: the first step builds the client.
    pub fn begin<E>() -> (res: (MatrixConnect, MatrixConnectAction<E>))
        ensures
            res.0 is Building,
            res.1 is BuildClient,
    {
        (MatrixConnect::Building, MatrixConnectAction::BuildClient)
    }

    /// The event this step waits for.
    pub open spec fn awaits<E>(&self, event: &MatrixConnectEvent<E>) -> bool {
        match (self, event) {
            (MatrixConnect::Building, MatrixConnectEvent::ClientBuilt(_)) => true,
            (MatrixConnect::CheckingSessionFile, MatrixConnectEvent::SessionFileChecked(_)) => true,
            (MatrixConnect::ReadingSession, MatrixConnectEvent::SessionRead(_)) => true,
            (MatrixConnect::ParsingSession, MatrixConnectEvent::SessionParsed(_)) => true,
            (MatrixConnect::RestoringSession, MatrixConnectEvent::SessionRestored(_)) => true,
            (MatrixConnect::LoggingIn, MatrixConnectEvent::LoggedIn(_)) => true,
            (MatrixConnect::CreatingStoreDir, MatrixConnectEvent::StoreDirCreated(_)) => true,
            (MatrixConnect::SerializingSession, MatrixConnectEvent::SessionSerialized(_)) => true,
            (MatrixConnect::WritingSession, MatrixConnectEvent::SessionWritten(_)) => true,
            (MatrixConnect::Syncing, MatrixConnectEvent::Synced(_)) => true,
            _ => false,
        }
    }

    /// Takes the next step.  A stored session is restored; without one the
    /// client logs in and, when the login gives a session, stores it.  Then
    /// the handlers are registered and the client syncs once.  Each failure
    /// ends the connection with the error of its step.
    pub fn advance<E>(self, event: MatrixConnectEvent<E>) -> (res: (
        MatrixConnect,
        MatrixConnectAction<E>,
    ))
        requires
            self.awaits(&event),
        ensures
            match event {
                MatrixConnectEvent::ClientBuilt(r) => match r {
                    Err(e) => res.0 is Finished && res.1 == MatrixConnectAction::Finish(
                        Err::<String, _>(MatrixClientError::Build(e)),
                    ),
                    Ok(()) => res.0 is CheckingSessionFile && res.1 is CheckSessionFile,
                },
                MatrixConnectEvent::SessionFileChecked(exists) => if exists {
                    res.0 is ReadingSession && res.1 is ReadSession
                } else {
                    res.0 is LoggingIn && res.1 is LogIn
                },
                MatrixConnectEvent::SessionRead(r) => match r {
                    Err(e) => res.0 is Finished && res.1 == MatrixConnectAction::Finish(
                        Err::<String, _>(MatrixClientError::SessionRead(e)),
                    ),
                    Ok(()) => res.0 is ParsingSession && res.1 is ParseSession,
                },
                MatrixConnectEvent::SessionParsed(r) => match r {
                    Err(e) => res.0 is Finished && res.1 == MatrixConnectAction::Finish(
                        Err::<String, _>(MatrixClientError::SessionParse(e)),
                    ),
                    Ok(()) => res.0 is RestoringSession && res.1 is RestoreSession,
                },
                MatrixConnectEvent::SessionRestored(r) => match r {
                    Err(e) => res.0 is Finished && res.1 == MatrixConnectAction::Finish(
                        Err::<String, _>(MatrixClientError::SessionRestore(e)),
                    ),
                    Ok(()) => res.0 is Syncing && res.1 is RegisterHandlersAndSync,
                },
                MatrixConnectEvent::LoggedIn(r) => match r {
                    Err(e) => res.0 is Finished && res.1 == MatrixConnectAction::Finish(
                        Err::<String, _>(MatrixClientError::Login(e)),
                    ),
                    Ok(true) => res.0 is CreatingStoreDir && res.1 is CreateStoreDir,
                    Ok(false) => res.0 is Syncing && res.1 is RegisterHandlersAndSync,
                },
                MatrixConnectEvent::StoreDirCreated(r) => match r {
                    Err(e) => res.0 is Finished && res.1 == MatrixConnectAction::Finish(
                        Err::<String, _>(MatrixClientError::SessionPersist(e)),
                    ),
                    Ok(()) => res.0 is SerializingSession && res.1 is SerializeSession,
                },
                MatrixConnectEvent::SessionSerialized(r) => match r {
                    Err(e) => res.0 is Finished && res.1 == MatrixConnectAction::Finish(
                        Err::<String, _>(MatrixClientError::SessionSerialize(e)),
                    ),
                    Ok(()) => res.0 is WritingSession && res.1 is WriteSession,
                },
                MatrixConnectEvent::SessionWritten(r) => match r {
                    Err(e) => res.0 is Finished && res.1 == MatrixConnectAction::Finish(
                        Err::<String, _>(MatrixClientError::SessionPersist(e)),
                    ),
                    Ok(()) => res.0 is Syncing && res.1 is RegisterHandlersAndSync,
                },
                MatrixConnectEvent::Synced(r) => match r {
                    Err(e) => res.0 is Finished && res.1 == MatrixConnectAction::Finish(
                        Err::<String, _>(MatrixClientError::Sync(e)),
                    ),
                    Ok(token) => res.0 is Finished && res.1 == MatrixConnectAction::<E>::Finish(
                        Ok(token),
                    ),
                },
            },
    {
        match event {
            MatrixConnectEvent::ClientBuilt(r) => match r {
                Err(e) => (
                    MatrixConnect::Finished,
                    MatrixConnectAction::Finish(Err(MatrixClientError::Build(e))),
                ),
                Ok(()) => (MatrixConnect::CheckingSessionFile, MatrixConnectAction::CheckSessionFile),
            },
            MatrixConnectEvent::SessionFileChecked(exists) => if exists {
                (MatrixConnect::ReadingSession, MatrixConnectAction::ReadSession)
            } else {
                (MatrixConnect::LoggingIn, MatrixConnectAction::LogIn)
            },
            MatrixConnectEvent::SessionRead(r) => match r {
                Err(e) => (
                    MatrixConnect::Finished,
                    MatrixConnectAction::Finish(Err(MatrixClientError::SessionRead(e))),
                ),
                Ok(()) => (MatrixConnect::ParsingSession, MatrixConnectAction::ParseSession),
            },
            MatrixConnectEvent::SessionParsed(r) => match r {
                Err(e) => (
                    MatrixConnect::Finished,
                    MatrixConnectAction::Finish(Err(MatrixClientError::SessionParse(e))),
                ),
                Ok(()) => (MatrixConnect::RestoringSession, MatrixConnectAction::RestoreSession),
            },
            MatrixConnectEvent::SessionRestored(r) => match r {
                Err(e) => (
                    MatrixConnect::Finished,
                    MatrixConnectAction::Finish(Err(MatrixClientError::SessionRestore(e))),
                ),
                Ok(()) => (MatrixConnect::Syncing, MatrixConnectAction::RegisterHandlersAndSync),
            },
            MatrixConnectEvent::LoggedIn(r) => match r {
                Err(e) => (
                    MatrixConnect::Finished,
                    MatrixConnectAction::Finish(Err(MatrixClientError::Login(e))),
                ),
                Ok(true) => (MatrixConnect::CreatingStoreDir, MatrixConnectAction::CreateStoreDir),
                Ok(false) => (MatrixConnect::Syncing, MatrixConnectAction::RegisterHandlersAndSync),
            },
            MatrixConnectEvent::StoreDirCreated(r) => match r {
                Err(e) => (
                    MatrixConnect::Finished,
                    MatrixConnectAction::Finish(Err(MatrixClientError::SessionPersist(e))),
                ),
                Ok(()) => (MatrixConnect::SerializingSession, MatrixConnectAction::SerializeSession),
            },
            MatrixConnectEvent::SessionSerialized(r) => match r {
                Err(e) => (
                    MatrixConnect::Finished,
                    MatrixConnectAction::Finish(Err(MatrixClientError::SessionSerialize(e))),
                ),
                Ok(()) => (MatrixConnect::WritingSession, MatrixConnectAction::WriteSession),
            },
            MatrixConnectEvent::SessionWritten(r) => match r {
                Err(e) => (
                    MatrixConnect::Finished,
                    MatrixConnectAction::Finish(Err(MatrixClientError::SessionPersist(e))),
                ),
                Ok(()) => (MatrixConnect::Syncing, MatrixConnectAction::RegisterHandlersAndSync),
            },
            MatrixConnectEvent::Synced(r) => match r {
                Err(e) => (
                    MatrixConnect::Finished,
                    MatrixConnectAction::Finish(Err(MatrixClientError::Sync(e))),
                ),
                Ok(token) => (MatrixConnect::Finished, MatrixConnectAction::Finish(Ok(token))),
            },
        }
    }
}

/// The directory of the client's SQLite store, inside the store path.
pub fn matrix_store_dir_name() -> (res: &'static str)
    ensures
        res@ == "matrix_store"@,
{
    "matrix_store"
}

/// The file the session is kept in, inside the store path.
pub fn session_file_name() -> (res: &'static str)
    ensures
        res@ == "session.json"@,
{
    "session.json"
}

/// The display name of the device the bot logs in with.
pub fn device_display_name() -> (res: &'static str)
    ensures
        res@ == "matrix-ticket-system"@,
{
    "matrix-ticket-system"
}

/// The user id to report after logging in, or `[unkown]` while the client
/// does not know it.
pub fn user_id_or_unknown(user_id: Option<String>) -> (res: String)
    ensures
        match user_id {
            Some(id) => res@ == id@,
            None => res@ == "[unkown]"@,
        },
{
    match user_id {
        Some(id) => id,
        None => "[unkown]".to_owned(),
    }
}

} // verus!
