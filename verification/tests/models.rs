use webserver::account::{Account, AccountModel, AccountUuid, InsertAccount, SimpleAccount};
use webserver::bounded::BoundedStr;
use webserver::ids::BusinessModelUuid;
use webserver::ticket::{CreateTicket, SimpleTicket, Ticket, TicketStatus, TicketUuid};

fn b255(s: &str) -> BoundedStr<255> {
    BoundedStr::new(s.to_string()).unwrap()
}

fn b1024(s: &str) -> BoundedStr<1024> {
    BoundedStr::new(s.to_string()).unwrap()
}

fn account(uuid: u128, name: &str) -> Account {
    Account::from(AccountModel {
        uuid,
        matrix_id: Some(b1024("@someone:example.org")),
        display_name: b255(name),
        email: b255("someone@example.org"),
        issuer: b255("https://id.example.org"),
        subject: b255("sub-1"),
    })
}

#[test]
fn uuid_wrappers_round_trip() {
    assert_eq!(AccountUuid::new_from_model(42).get_inner(), 42);
    assert_eq!(TicketUuid::new_from_model(u128::MAX).get_inner(), u128::MAX);
}

#[test]
fn account_from_model_keeps_fields() {
    let a = account(7, "Jane");
    assert_eq!(a.uuid.get_inner(), 7);
    assert_eq!(a.display_name.as_str(), "Jane");
    assert_eq!(a.matrix_id.as_ref().unwrap().as_str(), "@someone:example.org");
    assert_eq!(a.issuer.as_str(), "https://id.example.org");
    let s = SimpleAccount::from(a);
    assert_eq!(s.uuid.get_inner(), 7);
    assert_eq!(s.email.as_str(), "someone@example.org");
    assert_eq!(s.display_name.as_str(), "Jane");
}

#[test]
fn new_account_row() {
    let m = Account::new_model(InsertAccount {
        display_name: b255("Jane"),
        email: b255("jane@example.org"),
        issuer: b255("iss"),
        subject: b255("sub"),
    });
    assert!(m.matrix_id.is_none());
    assert_eq!(m.display_name.as_str(), "Jane");
    assert_eq!(m.subject.as_str(), "sub");
    assert_eq!((m.uuid >> 76) & 0xf, 4);
    assert_eq!((m.uuid >> 62) & 0x3, 2);
}

#[test]
fn new_ticket_row_is_open_with_empty_response() {
    let m = Ticket::new_model(CreateTicket {
        created_by: AccountUuid::new_from_model(1),
        assigned_to: Some(AccountUuid::new_from_model(2)),
        heading: b255("Printer"),
        body: b1024("It is on fire."),
    });
    assert_eq!(m.created_by, 1);
    assert_eq!(m.assigned_to, Some(2));
    assert_eq!(m.status, TicketStatus::Open);
    assert_eq!(m.heading.as_str(), "Printer");
    assert_eq!(m.body.as_str(), "It is on fire.");
    assert_eq!(m.response.as_str(), "");
    assert!(m.closed_at.is_none());
    assert_eq!((m.uuid >> 76) & 0xf, 4);
    let other = Ticket::new_model(CreateTicket {
        created_by: AccountUuid::new_from_model(1),
        assigned_to: None,
        heading: b255("h"),
        body: b1024("b"),
    });
    assert_ne!(m.uuid, other.uuid);
    assert_eq!(other.assigned_to, None);
}

#[test]
fn ticket_updates_touch_one_field() {
    let m = Ticket::new_model(CreateTicket {
        created_by: AccountUuid::new_from_model(1),
        assigned_to: None,
        heading: b255("Printer"),
        body: b1024("Broken"),
    });
    let uuid = m.uuid;
    let mut t = Ticket::new(m, account(1, "Jane"), None);
    assert_eq!(t.uuid.get_inner(), uuid);
    t.update_status(TicketStatus::Closed);
    assert_eq!(t.status, TicketStatus::Closed);
    assert_eq!(t.heading.as_str(), "Printer");
    t.update_response(b1024("Fixed"));
    assert_eq!(t.response.as_str(), "Fixed");
    assert_eq!(t.status, TicketStatus::Closed);
    t.update_assigned_to(account(3, "Joe"));
    assert_eq!(t.assigned_to.as_ref().unwrap().uuid.get_inner(), 3);
    let s = SimpleTicket::from(t);
    assert_eq!(s.uuid.get_inner(), uuid);
    assert_eq!(s.created_by.display_name.as_str(), "Jane");
    assert_eq!(s.assigned_to.unwrap().display_name.as_str(), "Joe");
    assert_eq!(s.response.as_str(), "Fixed");
    assert_eq!(s.status, TicketStatus::Closed);
}

#[test]
fn status_update_of_missing_ticket_is_bad_request() {
    let err = match webserver::ticket::ticket_to_update(None) {
        Err(e) => e,
        Ok(_) => panic!("a missing ticket must be refused"),
    };
    assert_eq!(err.kind, webserver::api::ApiErrorKind::BadRequest);
    assert_eq!(err.context, "Ticket not found");
    let m = Ticket::new_model(CreateTicket {
        created_by: AccountUuid::new_from_model(1),
        assigned_to: None,
        heading: b255("h"),
        body: b1024("b"),
    });
    let uuid = m.uuid;
    let t = webserver::ticket::ticket_to_update(Some(Ticket::new(m, account(1, "Jane"), None))).unwrap();
    assert_eq!(t.uuid.get_inner(), uuid);
    assert_eq!(t.created_by.uuid.get_inner(), 1);
}

#[test]
fn ticket_row_with_given_id_and_time() {
    let m = Ticket::build_model(
        CreateTicket {
            created_by: AccountUuid::new_from_model(5),
            assigned_to: Some(AccountUuid::new_from_model(6)),
            heading: b255("Heading"),
            body: b1024("Body"),
        },
        0x1234,
        1_700_000_000_000_000_000,
    );
    assert_eq!(m.uuid, 0x1234);
    assert_eq!(m.timestamp, 1_700_000_000_000_000_000);
    assert_eq!(m.created_by, 5);
    assert_eq!(m.assigned_to, Some(6));
    assert_eq!(m.status, TicketStatus::Open);
    assert_eq!(m.heading.as_str(), "Heading");
    assert_eq!(m.body.as_str(), "Body");
    assert_eq!(m.response.as_str(), "");
    assert!(m.closed_at.is_none());
}

#[test]
fn new_ticket_row_is_stamped_with_the_current_time() {
    let m = Ticket::new_model(CreateTicket {
        created_by: AccountUuid::new_from_model(1),
        assigned_to: None,
        heading: b255("h"),
        body: b1024("b"),
    });
    // 2020-01-01T00:00:00Z in nanoseconds since the Unix epoch.
    assert!(m.timestamp > 1_577_836_800_000_000_000);
}

#[test]
fn account_row_with_given_id() {
    let m = Account::build_model(
        InsertAccount {
            display_name: b255("Jane"),
            email: b255("jane@example.org"),
            issuer: b255("iss"),
            subject: b255("sub"),
        },
        99,
    );
    assert_eq!(m.uuid, 99);
    assert!(m.matrix_id.is_none());
    assert_eq!(m.display_name.as_str(), "Jane");
    assert_eq!(m.email.as_str(), "jane@example.org");
    assert_eq!(m.issuer.as_str(), "iss");
    assert_eq!(m.subject.as_str(), "sub");
}
