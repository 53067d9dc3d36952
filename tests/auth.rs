use mindflow::auth::{next, token_file_name, TokenAction, TokenEvent, TokenFailure, TokenState};

#[test]
fn given_token_is_written_verbatim() {
    let (s, a) = next(TokenState::Start, TokenEvent::Started { auth_key: Some("tok-123 ".to_string()) });
    assert!(matches!(a, TokenAction::LookUpHome));
    let (s, a) = next(s, TokenEvent::HomeLookedUp { result: Ok("/home/u".to_string()) });
    match a {
        TokenAction::WriteToken { home_dir, token } => {
            assert_eq!(home_dir, "/home/u");
            assert_eq!(token, "tok-123 ");
        }
        _ => panic!("expected a write"),
    }
    let (s, a) = next(s, TokenEvent::Written { result: Ok(()) });
    assert!(matches!(a, TokenAction::Succeed));
    assert!(matches!(s, TokenState::Done));
}

#[test]
fn missing_token_is_prompted_for() {
    let (s, a) = next(TokenState::Start, TokenEvent::Started { auth_key: None });
    assert!(matches!(a, TokenAction::Prompt));
    let (s, a) = next(s, TokenEvent::Prompted { result: Ok("typed".to_string()) });
    assert!(matches!(a, TokenAction::LookUpHome));
    let (_, a) = next(s, TokenEvent::HomeLookedUp { result: Ok("/root".to_string()) });
    assert!(matches!(a, TokenAction::WriteToken { ref token, .. } if token == "typed"));
}

#[test]
fn failed_prompt_exits_with_status_one() {
    let (_, a) = next(TokenState::Prompting, TokenEvent::Prompted { result: Err("io".to_string()) });
    match a {
        TokenAction::Exit { status, failure, detail } => {
            assert_eq!(status, 1);
            assert!(matches!(failure, TokenFailure::Prompt));
            assert_eq!(detail, "io");
        }
        _ => panic!("expected an exit"),
    }
}

#[test]
fn missing_home_exits_before_any_write() {
    let (s, _) = next(TokenState::Start, TokenEvent::Started { auth_key: Some("t".to_string()) });
    let (s, a) = next(s, TokenEvent::HomeLookedUp { result: Err("not present".to_string()) });
    match a {
        TokenAction::Exit { status, failure, .. } => {
            assert_ne!(status, 0);
            assert!(matches!(failure, TokenFailure::MissingHome));
        }
        _ => panic!("expected an exit"),
    }
    assert!(matches!(s, TokenState::Done));
    let (_, a) = next(s, TokenEvent::Written { result: Ok(()) });
    assert!(matches!(a, TokenAction::Nothing));
}

#[test]
fn failed_write_exits_with_status_one() {
    let (s, a) = next(TokenState::Writing, TokenEvent::Written { result: Err("denied".to_string()) });
    assert!(matches!(s, TokenState::Done));
    assert!(matches!(a, TokenAction::Exit { status: 1, failure: TokenFailure::Write, .. }));
}

#[test]
fn out_of_order_event_changes_nothing() {
    let (s, a) = next(TokenState::Prompting, TokenEvent::Written { result: Ok(()) });
    assert!(matches!(s, TokenState::Prompting));
    assert!(matches!(a, TokenAction::Nothing));
}

#[test]
fn token_file_is_the_dotfile() {
    assert_eq!(token_file_name(), ".mindflow");
}
