use webserver::matrix::{
    device_display_name, matrix_store_dir_name, session_file_name, MatrixClientError, MatrixConnect,
    MatrixConnectAction, MatrixConnectEvent, TicketHandlerErrors,
};

fn finish(a: MatrixConnectAction<String>) -> Result<String, MatrixClientError<String>> {
    match a {
        MatrixConnectAction::Finish(r) => r,
        _ => panic!("expected the end"),
    }
}

#[test]
fn restore_stored_session() {
    let (s, a) = MatrixConnect::begin::<String>();
    assert!(matches!(a, MatrixConnectAction::BuildClient));
    let (s, a) = s.advance::<String>(MatrixConnectEvent::ClientBuilt(Ok(())));
    assert!(matches!(a, MatrixConnectAction::CheckSessionFile));
    let (s, a) = s.advance::<String>(MatrixConnectEvent::SessionFileChecked(true));
    assert!(matches!(a, MatrixConnectAction::ReadSession));
    let (s, a) = s.advance::<String>(MatrixConnectEvent::SessionRead(Ok(())));
    assert!(matches!(a, MatrixConnectAction::ParseSession));
    let (s, a) = s.advance::<String>(MatrixConnectEvent::SessionParsed(Ok(())));
    assert!(matches!(a, MatrixConnectAction::RestoreSession));
    let (s, a) = s.advance::<String>(MatrixConnectEvent::SessionRestored(Ok(())));
    assert!(matches!(a, MatrixConnectAction::RegisterHandlersAndSync));
    let (s, a) = s.advance::<String>(MatrixConnectEvent::Synced(Ok("s42".to_string())));
    assert!(matches!(s, MatrixConnect::Finished));
    assert_eq!(finish(a).ok(), Some("s42".to_string()));
}

#[test]
fn login_and_store_session() {
    let (s, _) = MatrixConnect::begin::<String>();
    let (s, _) = s.advance::<String>(MatrixConnectEvent::ClientBuilt(Ok(())));
    let (s, a) = s.advance::<String>(MatrixConnectEvent::SessionFileChecked(false));
    assert!(matches!(a, MatrixConnectAction::LogIn));
    let (s, a) = s.advance::<String>(MatrixConnectEvent::LoggedIn(Ok(true)));
    assert!(matches!(a, MatrixConnectAction::CreateStoreDir));
    let (s, a) = s.advance::<String>(MatrixConnectEvent::StoreDirCreated(Ok(())));
    assert!(matches!(a, MatrixConnectAction::SerializeSession));
    let (s, a) = s.advance::<String>(MatrixConnectEvent::SessionSerialized(Ok(())));
    assert!(matches!(a, MatrixConnectAction::WriteSession));
    let (_, a) = s.advance::<String>(MatrixConnectEvent::SessionWritten(Ok(())));
    assert!(matches!(a, MatrixConnectAction::RegisterHandlersAndSync));
}

#[test]
fn login_without_session_goes_straight_to_sync() {
    let (s, _) = MatrixConnect::begin::<String>();
    let (s, _) = s.advance::<String>(MatrixConnectEvent::ClientBuilt(Ok(())));
    let (s, _) = s.advance::<String>(MatrixConnectEvent::SessionFileChecked(false));
    let (_, a) = s.advance::<String>(MatrixConnectEvent::LoggedIn(Ok(false)));
    assert!(matches!(a, MatrixConnectAction::RegisterHandlersAndSync));
}

#[test]
fn failures_name_their_step() {
    let (s, _) = MatrixConnect::begin::<String>();
    let (_, a) = s.advance(MatrixConnectEvent::ClientBuilt(Err("no homeserver".to_string())));
    let e = finish(a).err().unwrap();
    assert_eq!(e.message(), "Failed to build matrix client");
    assert!(matches!(e, MatrixClientError::Build(ref x) if x == "no homeserver"));

    let (s, _) = MatrixConnect::begin::<String>();
    let (s, _) = s.advance::<String>(MatrixConnectEvent::ClientBuilt(Ok(())));
    let (s, _) = s.advance::<String>(MatrixConnectEvent::SessionFileChecked(false));
    let (s, _) = s.advance::<String>(MatrixConnectEvent::LoggedIn(Ok(true)));
    let (_, a) = s.advance(MatrixConnectEvent::StoreDirCreated(Err("read-only".to_string())));
    assert_eq!(finish(a).err().unwrap().message(), "Failed to persist session");

    let (s, _) = MatrixConnect::begin::<String>();
    let (s, _) = s.advance::<String>(MatrixConnectEvent::ClientBuilt(Ok(())));
    let (s, _) = s.advance::<String>(MatrixConnectEvent::SessionFileChecked(true));
    let (s, _) = s.advance::<String>(MatrixConnectEvent::SessionRead(Ok(())));
    let (_, a) = s.advance(MatrixConnectEvent::SessionParsed(Err("json".to_string())));
    assert_eq!(finish(a).err().unwrap().message(), "Failed to parse session");
}

#[test]
fn error_messages() {
    let all: Vec<(MatrixClientError<()>, &str)> = vec![
        (MatrixClientError::Build(()), "Failed to build matrix client"),
        (MatrixClientError::SessionSerialize(()), "Failed to serialize session"),
        (MatrixClientError::SessionParse(()), "Failed to parse session"),
        (MatrixClientError::SessionRead(()), "Failed to read session"),
        (MatrixClientError::SessionPersist(()), "Failed to persist session"),
        (MatrixClientError::SessionRestore(()), "Failed to restore session"),
        (MatrixClientError::Login(()), "Failed to login"),
        (MatrixClientError::Sync(()), "Failed to sync with matrix"),
    ];
    for (e, m) in all {
        assert_eq!(e.message(), m);
    }
    assert_eq!(TicketHandlerErrors::Database("Timeout".to_string()).describe(), "Database error: Timeout");
    assert_eq!(TicketHandlerErrors::ParseBody.describe(), "Failed to parse body");
    assert_eq!(TicketHandlerErrors::HeadingTooLong.describe(), "Heading too long. Max length is 255 characters.");
}

#[test]
fn names() {
    assert_eq!(matrix_store_dir_name(), "matrix_store");
    assert_eq!(session_file_name(), "session.json");
    assert_eq!(device_display_name(), "matrix-ticket-system");
}
