//! Tickets: requests that a user opens and that an account works on.
use vstd::prelude::*;

use crate::api::{ApiErrorKind, ApiFailure};
use crate::account::{Account, AccountUuid, SimpleAccount};
use crate::bounded::BoundedStr;
use crate::ids::{is_v4_uuid, new_random_uuid, now_unix_nanos, BusinessModelUuid};

verus! {

/// The state a ticket is in.
#[derive(Clone, Copy, PartialEq, Eq, Structural, Debug)]
pub enum TicketStatus {
    /// Newly created and not dealt with yet.
    Open,
    /// Dealt with.
    Closed,
}

/// Identifier of a ticket.
#[derive(Clone, Copy, PartialEq, Eq, Structural, Debug)]
pub struct TicketUuid(u128);

impl BusinessModelUuid for TicketUuid {
    closed spec fn inner(&self) -> u128 {
        self.0
    }

    fn new_from_model(value: u128) -> (res: Self) {
        TicketUuid(value)
    }

    fn get_inner(&self) -> (res: u128) {
        self.0
    }
}

/// The ticket row as the database stores it.
pub struct TicketModel {
    /// Primary key.
    pub uuid: u128,
    /// The account that created the ticket.
    pub created_by: u128,
    /// The account the ticket is assigned to.
    pub assigned_to: Option<u128>,
    /// Creation time, in nanoseconds since the Unix epoch.
    pub timestamp: i128,
    /// The status of the ticket.
    pub status: TicketStatus,
    /// The title of the ticket.
    pub heading: BoundedStr<255>,
    /// The body of the ticket.
    pub body: BoundedStr<1024>,
    /// The response to the ticket.
    pub response: BoundedStr<1024>,
    /// When the ticket was closed, in nanoseconds since the Unix epoch.
    pub closed_at: Option<i128>,
}

/// Business model for tickets.
pub struct Ticket {
    /// The ticket's identifier.
    pub uuid: TicketUuid,
    /// The account that created the ticket.
    pub created_by: Account,
    /// The account the ticket is assigned to.
    pub assigned_to: Option<Account>,
    /// Creation time, in nanoseconds since the Unix epoch.
    pub timestamp: i128,
    /// The status of the ticket.
    pub status: TicketStatus,
    /// The title of the ticket.
    pub heading: BoundedStr<255>,
    /// The body of the ticket.
    pub body: BoundedStr<1024>,
    /// The response to the ticket.
    pub response: BoundedStr<1024>,
}

/// A request to create a ticket.
pub struct CreateTicket {
    /// The account that creates the ticket.
    pub created_by: AccountUuid,
    /// The account the ticket is assigned to.
    pub assigned_to: Option<AccountUuid>,
    /// The title of the ticket.
    pub heading: BoundedStr<255>,
    /// The body of the ticket.
    pub body: BoundedStr<1024>,
}

/// A ticket as the HTTP API returns it.
pub struct SimpleTicket {
    /// The ticket's identifier.
    pub uuid: TicketUuid,
    /// The account that created the ticket.
    pub created_by: SimpleAccount,
    /// The account the ticket is assigned to.
    pub assigned_to: Option<SimpleAccount>,
    /// Creation time, in nanoseconds since the Unix epoch.
    pub timestamp: i128,
    /// The status of the ticket.
    pub status: TicketStatus,
    /// The title of the ticket.
    pub heading: BoundedStr<255>,
    /// The body of the ticket.
    pub body: BoundedStr<1024>,
    /// The response to the ticket.
    pub response: BoundedStr<1024>,
}

/// Request to set the status of a ticket.
pub struct SetTicketStatusRequest {
    /// The new status.
    pub status: TicketStatus,
}

/// The raw identifier of an optional account.
pub open spec fn opt_account_inner(a: Option<AccountUuid>) -> Option<u128> {
    match a {
        Some(a) => Some(a.inner()),
        None => None,
    }
}

/// The identifier of an optional account.
pub open spec fn opt_account_uuid(a: Option<Account>) -> Option<AccountUuid> {
    match a {
        Some(a) => Some(a.uuid),
        None => None,
    }
}

/// The ticket a status update applies to: the one that was found, or a bad
/// request "Ticket not found" where none was.
pub fn ticket_to_update(found: Option<Ticket>) -> (res: Result<Ticket, ApiFailure>)
    ensures
        match found {
            Some(t) => res == Ok::<Ticket, ApiFailure>(t),
            None => res matches Err(f) && f.kind == ApiErrorKind::BadRequest && f.context@
                == "Ticket not found"@,
        },
{
    match found {
        Some(t) => Ok(t),
        None => Err(ApiFailure { kind: ApiErrorKind::BadRequest, context: "Ticket not found" }),
    }
}

impl Ticket {
    /// The row to insert for a new ticket: a fresh random identifier, the
    /// current time, status `Open`, an empty response and no closing time.
    pub fn new_model(request: CreateTicket) -> (res: TicketModel)
        ensures
            is_v4_uuid(res.uuid),
            Self::is_new_row(res, request, res.uuid, res.timestamp),
            res.created_by == request.created_by.inner(),
            res.assigned_to == opt_account_inner(request.assigned_to),
            res.status == TicketStatus::Open,
            res.heading@ == request.heading@,
            res.body@ == request.body@,
            res.response@ == Seq::<char>::empty(),
            res.closed_at is None,
    {
        let uuid = new_random_uuid();
        let timestamp = now_unix_nanos();
        Self::build_model(request, uuid, timestamp)
    }

    /// Whether `row` is the row for a new ticket made from `request`, with
    /// identifier `uuid` and created at `timestamp` (nanoseconds since the
    /// Unix epoch): status `Open`, an empty response and no closing time.
    pub open spec fn is_new_row(row: TicketModel, request: CreateTicket, uuid: u128, timestamp: i128) -> bool {
        &&& row.uuid == uuid
        &&& row.created_by == request.created_by.inner()
        &&& row.assigned_to == opt_account_inner(request.assigned_to)
        &&& row.timestamp == timestamp
        &&& row.status == TicketStatus::Open
        &&& row.heading == request.heading
        &&& row.body == request.body
        &&& row.response@ == Seq::<char>::empty()
        &&& row.closed_at is None
    }

    /// The row for a new ticket with the given identifier and creation time:
    /// status `Open`, an empty response and no closing time.
    pub fn build_model(request: CreateTicket, uuid: u128, timestamp: i128) -> (res: TicketModel)
        ensures
            Self::is_new_row(res, request, uuid, timestamp),
    {
        let assigned_to = match request.assigned_to {
            Some(account) => Some(account.get_inner()),
            None => None,
        };
        TicketModel {
            uuid,
            created_by: request.created_by.get_inner(),
            assigned_to,
            timestamp,
            status: TicketStatus::Open,
            heading: request.heading,
            body: request.body,
            response: BoundedStr::empty(),
            closed_at: None,
        }
    }

    /// Assembles a ticket from its row and the accounts the row refers to:
    /// `created_by` is the account the row names as its creator, and
    /// `assigned_to` the account it is assigned to, if any.
    pub fn new(model: TicketModel, created_by: Account, assigned_to: Option<Account>) -> (res:
        Ticket)
        requires
            created_by.uuid.inner() == model.created_by,
            opt_account_inner(opt_account_uuid(assigned_to)) == model.assigned_to,
        ensures
            res.created_by.uuid.inner() == model.created_by,
            opt_account_inner(opt_account_uuid(res.assigned_to)) == model.assigned_to,
            res.uuid.inner() == model.uuid,
            res.created_by == created_by,
            res.assigned_to == assigned_to,
            res.timestamp == model.timestamp,
            res.status == model.status,
            res.heading == model.heading,
            res.body == model.body,
            res.response == model.response,
    {
        Ticket {
            uuid: TicketUuid(model.uuid),
            created_by,
            assigned_to,
            timestamp: model.timestamp,
            status: model.status,
            heading: model.heading,
            body: model.body,
            response: model.response,
        }
    }

    /// Sets the status, leaving everything else as it was.
    pub fn update_status(&mut self, status: TicketStatus)
        ensures
            final(self).status == status,
            final(self).uuid == old(self).uuid,
            final(self).created_by == old(self).created_by,
            final(self).assigned_to == old(self).assigned_to,
            final(self).timestamp == old(self).timestamp,
            final(self).heading == old(self).heading,
            final(self).body == old(self).body,
            final(self).response == old(self).response,
    {
        self.status = status;
    }

    /// Sets the response, leaving everything else as it was.
    pub fn update_response(&mut self, response: BoundedStr<1024>)
        ensures
            final(self).response == response,
            final(self).uuid == old(self).uuid,
            final(self).created_by == old(self).created_by,
            final(self).assigned_to == old(self).assigned_to,
            final(self).timestamp == old(self).timestamp,
            final(self).status == old(self).status,
            final(self).heading == old(self).heading,
            final(self).body == old(self).body,
    {
        self.response = response;
    }

    /// Assigns the ticket to `account`, leaving everything else as it was.
    pub fn update_assigned_to(&mut self, account: Account)
        ensures
            final(self).assigned_to == Some(account),
            final(self).uuid == old(self).uuid,
            final(self).created_by == old(self).created_by,
            final(self).timestamp == old(self).timestamp,
            final(self).status == old(self).status,
            final(self).heading == old(self).heading,
            final(self).body == old(self).body,
            final(self).response == old(self).response,
    {
        self.assigned_to = Some(account);
    }
}

/// A new ticket's row carries the identifier and creation time it was made
/// with, the creator and assignee of the request, its heading and body; it
/// starts `Open`, with no response and no closing time.
pub proof fn law_new_ticket_row(request: CreateTicket, uuid: u128, timestamp: i128, res: TicketModel)
    requires
        call_ensures(Ticket::build_model, (request, uuid, timestamp), res),
    ensures
        res.uuid == uuid,
        res.timestamp == timestamp,
        res.created_by == request.created_by.inner(),
        request.assigned_to is None ==> res.assigned_to is None,
        request.assigned_to matches Some(a) ==> res.assigned_to == Some(a.inner()),
        res.status == TicketStatus::Open,
        res.heading@ == request.heading@,
        res.body@ == request.body@,
        res.response@.len() == 0,
        res.closed_at is None,
{
}

/// The API form of an optional account.
pub open spec fn opt_simple_account(a: Option<Account>) -> Option<SimpleAccount> {
    match a {
        Some(a) => Some(<SimpleAccount as vstd::std_specs::convert::FromSpec<Account>>::from_spec(a)),
        None => None,
    }
}

impl From<Ticket> for SimpleTicket {
    fn from(ticket: Ticket) -> (res: Self) {
        let assigned_to = match ticket.assigned_to {
            Some(account) => Some(SimpleAccount::from(account)),
            None => None,
        };
        SimpleTicket {
            uuid: ticket.uuid,
            created_by: SimpleAccount::from(ticket.created_by),
            assigned_to,
            timestamp: ticket.timestamp,
            status: ticket.status,
            heading: ticket.heading,
            body: ticket.body,
            response: ticket.response,
        }
    }
}

/// The API form of a ticket shows the ticket as it is: its identifier,
/// creation time, status, heading, body and response unchanged, and the
/// accounts that created it and that it is assigned to in their API form.
pub proof fn law_simple_ticket_shows_ticket(ticket: Ticket, res: SimpleTicket)
    requires
        call_ensures(<SimpleTicket as From<Ticket>>::from, (ticket,), res),
    ensures
        res.uuid == ticket.uuid,
        res.timestamp == ticket.timestamp,
        res.status == ticket.status,
        res.heading == ticket.heading,
        res.body == ticket.body,
        res.response == ticket.response,
        res.created_by.uuid == ticket.created_by.uuid,
        res.created_by.email == ticket.created_by.email,
        res.created_by.display_name == ticket.created_by.display_name,
        res.created_by.matrix_id == ticket.created_by.matrix_id,
        res.assigned_to is Some <==> ticket.assigned_to is Some,
        res.assigned_to is Some ==> {
            let a = res.assigned_to->0;
            let b = ticket.assigned_to->0;
            &&& a.uuid == b.uuid
            &&& a.email == b.email
            &&& a.display_name == b.display_name
            &&& a.matrix_id == b.matrix_id
        },
{
}

impl vstd::std_specs::convert::FromSpecImpl<Ticket> for SimpleTicket {
    open spec fn obeys_from_spec() -> bool {
        true
    }

    open spec fn from_spec(ticket: Ticket) -> SimpleTicket {
        SimpleTicket {
            uuid: ticket.uuid,
            created_by: <SimpleAccount as vstd::std_specs::convert::FromSpec<Account>>::from_spec(ticket.created_by),
            assigned_to: opt_simple_account(ticket.assigned_to),
            timestamp: ticket.timestamp,
            status: ticket.status,
            heading: ticket.heading,
            body: ticket.body,
            response: ticket.response,
        }
    }
}

} // verus!
