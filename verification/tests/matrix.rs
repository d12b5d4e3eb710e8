use webserver::account::AccountUuid;
use webserver::ids::BusinessModelUuid;
use webserver::matrix::{
    user_id_or_unknown, EventHandlers, RoomInvite, RoomMessage, RoomMessageAction,
    TicketHandlerErrors, TicketRequest, TicketRequestAction, TicketRequestEvent,
};

const TEMPLATE: &str = "\u{1f3ab} **Ticket Template**\n\nUse this exact format:\n```\n!ticket\nYour Heading Here\n+++\nYour detailed description goes here.\nIt can span multiple lines.\n+++\nJohn Doe\n```\n\n**Note:** Use `---` on its own line to separate the sections.\n*Limits: Heading 255 chars, Body 1024 chars.*";

#[test]
fn user_messages() {
    assert_eq!(TicketHandlerErrors::AccountNotFound.to_user_message(), "Account not found");
    assert_eq!(
        TicketHandlerErrors::ParseBody.to_user_message(),
        "Failed to parse body, please use !template to get the correct template."
    );
    assert_eq!(
        TicketHandlerErrors::HeadingTooLong.to_user_message(),
        "Heading too long, only 255 characters allowed"
    );
    assert_eq!(
        TicketHandlerErrors::BodyTooLong.to_user_message(),
        "Body too long, you can only have 1024 characters"
    );
    assert_eq!(
        TicketHandlerErrors::Database("connection refused".to_string()).to_user_message(),
        "Database error please contact your admin"
    );
}

#[test]
fn room_messages_are_classified() {
    match RoomMessage::on_room_message(true, Some("  !template \n")) {
        RoomMessageAction::SendTemplate(t) => assert_eq!(t, TEMPLATE),
        _ => panic!("expected the template"),
    }
    assert!(matches!(RoomMessage::on_room_message(false, Some("!template")), RoomMessageAction::Ignore));
    assert!(matches!(RoomMessage::on_room_message(true, None), RoomMessageAction::Ignore));
    assert!(matches!(
        RoomMessage::on_room_message(true, Some("\n !ticket x + y + z")),
        RoomMessageAction::HandleTicketRequest
    ));
    assert!(matches!(RoomMessage::on_room_message(true, Some("!ticketing")), RoomMessageAction::HandleTicketRequest));
    assert!(matches!(RoomMessage::on_room_message(true, Some("please !ticket")), RoomMessageAction::Ignore));
    assert!(matches!(RoomMessage::on_room_message(true, Some("!template please")), RoomMessageAction::Ignore));
}

#[test]
fn replies() {
    assert_eq!(RoomMessage::reply_text(&Ok(())), "Ticket created successfully");
    assert_eq!(RoomMessage::reply_text(&Err(TicketHandlerErrors::BodyTooLong)), "Body too long, you can only have 1024 characters");
}

fn uuid(v: u128) -> AccountUuid {
    AccountUuid::new_from_model(v)
}

fn start(text: &str) -> TicketRequest {
    let (state, action) = RoomMessage::handle_ticket_request(text.to_string(), "@jane:example.org".to_string());
    assert!(matches!(action, TicketRequestAction::OpenTransaction));
    let (state, action) = state.advance(TicketRequestEvent::TransactionOpened(Ok(())));
    match action {
        TicketRequestAction::FindAccountByMatrixId(id) => assert_eq!(id, "@jane:example.org"),
        _ => panic!("expected an account lookup"),
    }
    state
}

fn finish_of(action: TicketRequestAction) -> Result<(), TicketHandlerErrors> {
    match action {
        TicketRequestAction::Finish(r) => r,
        _ => panic!("expected the end"),
    }
}

#[test]
fn ticket_request_success() {
    let state = start("!ticket\n  Printer  \n+++\nIt is on fire.\n+++\nJohn Doe");
    let (state, action) = state.advance(TicketRequestEvent::CreatorFound(Ok(Some(uuid(1)))));
    match action {
        TicketRequestAction::FindAccountByDisplayName(name) => assert_eq!(name, "John Doe"),
        _ => panic!("expected an assignee lookup"),
    }
    let (state, action) = state.advance(TicketRequestEvent::AssigneeFound(Ok(Some(uuid(2)))));
    match action {
        TicketRequestAction::CreateTicket(t) => {
            assert_eq!(t.created_by.get_inner(), 1);
            assert_eq!(t.assigned_to.unwrap().get_inner(), 2);
            assert_eq!(t.heading.as_str(), "Printer");
            assert_eq!(t.body.as_str(), "It is on fire.");
        }
        _ => panic!("expected a ticket"),
    }
    let (state, action) = state.advance(TicketRequestEvent::TicketCreated(Ok(())));
    assert!(matches!(action, TicketRequestAction::Commit));
    let (state, action) = state.advance(TicketRequestEvent::Committed(Ok(())));
    assert!(matches!(state, TicketRequest::Finished));
    assert!(finish_of(action).is_ok());
}

#[test]
fn ticket_request_without_assignee_account() {
    let state = start("!ticket a + b + Nobody");
    let (state, _) = state.advance(TicketRequestEvent::CreatorFound(Ok(Some(uuid(1)))));
    let (_, action) = state.advance(TicketRequestEvent::AssigneeFound(Ok(None)));
    match action {
        TicketRequestAction::CreateTicket(t) => assert!(t.assigned_to.is_none()),
        _ => panic!("expected a ticket"),
    }
}

#[test]
fn ticket_request_failures() {
    let (_, a) = start("!ticket a + b + c").advance(TicketRequestEvent::CreatorFound(Ok(None)));
    assert!(matches!(finish_of(a), Err(TicketHandlerErrors::AccountNotFound)));

    let (_, a) = start("!ticket a + b").advance(TicketRequestEvent::CreatorFound(Ok(Some(uuid(1)))));
    assert!(matches!(finish_of(a), Err(TicketHandlerErrors::ParseBody)));

    let (_, a) = start("!ticket a + b + c").advance(TicketRequestEvent::CreatorFound(Err("down".to_string())));
    match finish_of(a) {
        Err(TicketHandlerErrors::Database(e)) => assert_eq!(e, "down"),
        _ => panic!("expected a database error"),
    }

    let long_heading = format!("!ticket {} + b + c", "h".repeat(256));
    let (s, _) = start(&long_heading).advance(TicketRequestEvent::CreatorFound(Ok(Some(uuid(1)))));
    let (_, a) = s.advance(TicketRequestEvent::AssigneeFound(Ok(None)));
    assert!(matches!(finish_of(a), Err(TicketHandlerErrors::HeadingTooLong)));

    let ok_heading = format!("!ticket {} + b + c", "h".repeat(255));
    let (s, _) = start(&ok_heading).advance(TicketRequestEvent::CreatorFound(Ok(Some(uuid(1)))));
    let (_, a) = s.advance(TicketRequestEvent::AssigneeFound(Ok(None)));
    assert!(matches!(a, TicketRequestAction::CreateTicket(_)));

    let long_both = format!("!ticket {} + {} + c", "h".repeat(256), "b".repeat(1025));
    let (s, _) = start(&long_both).advance(TicketRequestEvent::CreatorFound(Ok(Some(uuid(1)))));
    let (_, a) = s.advance(TicketRequestEvent::AssigneeFound(Ok(None)));
    assert!(matches!(finish_of(a), Err(TicketHandlerErrors::HeadingTooLong)));

    let long_body = format!("!ticket h + {} + c", "b".repeat(1025));
    let (s, _) = start(&long_body).advance(TicketRequestEvent::CreatorFound(Ok(Some(uuid(1)))));
    let (_, a) = s.advance(TicketRequestEvent::AssigneeFound(Ok(None)));
    assert!(matches!(finish_of(a), Err(TicketHandlerErrors::BodyTooLong)));

    let (s, _) = start("!ticket a + b + c").advance(TicketRequestEvent::CreatorFound(Ok(Some(uuid(1)))));
    let (s, _) = s.advance(TicketRequestEvent::AssigneeFound(Ok(None)));
    let (_, a) = s.advance(TicketRequestEvent::TicketCreated(Err("constraint".to_string())));
    assert!(matches!(finish_of(a), Err(TicketHandlerErrors::Database(_))));

    let (s, _) = RoomMessage::handle_ticket_request("x".to_string(), "y".to_string());
    let (s, a) = s.advance(TicketRequestEvent::TransactionOpened(Err("no pool".to_string())));
    assert!(matches!(s, TicketRequest::Finished));
    assert!(matches!(finish_of(a), Err(TicketHandlerErrors::Database(_))));
}

#[test]
fn invites_and_simple_handlers() {
    assert!(RoomInvite::on_room_invite(Some("@bot:example.org"), "@bot:example.org"));
    assert!(!RoomInvite::on_room_invite(Some("@bot:example.org"), "@jane:example.org"));
    assert!(!RoomInvite::on_room_invite(None, "@bot:example.org"));
    assert!(EventHandlers::on_room_invite(Some("@bot:x"), "@bot:x"));
    assert_eq!(EventHandlers::on_room_message(true, Some("hey !ticket please")), Some("Received ticket".to_string()));
    assert_eq!(EventHandlers::on_room_message(false, Some("!ticket")), None);
    assert_eq!(EventHandlers::on_room_message(true, Some("!tick")), None);
    assert_eq!(EventHandlers::on_room_message(true, None), None);
}

#[test]
fn unknown_user_id() {
    assert_eq!(user_id_or_unknown(Some("@bot:x".to_string())), "@bot:x");
    assert_eq!(user_id_or_unknown(None), "[unkown]");
}
