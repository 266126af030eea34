use cli_notes::interactive::parser::{parse_input, InteractiveCommand};
use cli_notes::interactive::{advance, SessionAction, SessionMode, SessionState};

fn in_mode(mode: SessionMode) -> SessionState {
    SessionState { mode }
}

#[test]
fn session_starts_in_journal_mode() {
    assert_eq!(SessionMode::default(), SessionMode::Journal);
    assert_eq!(SessionState::default().mode, SessionMode::Journal);
}

#[test]
fn mode_labels() {
    assert_eq!(SessionMode::Journal.label(), "journal");
    assert_eq!(SessionMode::Snippet.label(), "snippet");
    assert_eq!(SessionMode::Note.label(), "note");
    assert_eq!(SessionMode::Search.label(), "search");
    assert_eq!(SessionMode::Help.label(), "help");
}

#[test]
fn parse_quit() {
    let state = SessionState::default();
    assert!(matches!(
        parse_input("\\quit", &state),
        Ok(InteractiveCommand::Quit)
    ));
    assert!(matches!(
        parse_input("\\quit now please", &state),
        Ok(InteractiveCommand::Quit)
    ));
}

#[test]
fn parse_mode_changes() {
    let state = in_mode(SessionMode::Help);
    assert!(matches!(
        parse_input("\\journal", &state),
        Ok(InteractiveCommand::ChangeMode(SessionMode::Journal))
    ));
    assert!(matches!(
        parse_input("\\snippet", &state),
        Ok(InteractiveCommand::ChangeMode(SessionMode::Snippet))
    ));
    assert!(matches!(
        parse_input("\\note extra", &state),
        Ok(InteractiveCommand::ChangeMode(SessionMode::Note))
    ));
}

#[test]
fn parse_unknown_command_names_it() {
    let state = SessionState::default();
    match parse_input("\\search rust", &state) {
        Err(message) => assert_eq!(message, "Unknown command: \\search"),
        other => panic!("expected a refusal, got {:?}", other),
    }
    match parse_input("\\", &state) {
        Err(message) => assert_eq!(message, "Unknown command: \\"),
        other => panic!("expected a refusal, got {:?}", other),
    }
    match parse_input("\\Quit", &state) {
        Err(message) => assert_eq!(message, "Unknown command: \\Quit"),
        other => panic!("expected a refusal, got {:?}", other),
    }
}

#[test]
fn parse_add_in_journal_mode() {
    let state = in_mode(SessionMode::Journal);
    match parse_input("add   Learned about lifetimes  ", &state) {
        Ok(InteractiveCommand::AddJournal(content)) => {
            assert_eq!(content, "Learned about lifetimes")
        }
        other => panic!("expected an entry, got {:?}", other),
    }
    match parse_input("add \u{3000}wide space\u{a0}", &state) {
        Ok(InteractiveCommand::AddJournal(content)) => assert_eq!(content, "wide space"),
        other => panic!("expected an entry, got {:?}", other),
    }
}

#[test]
fn parse_add_without_content_is_refused() {
    let state = in_mode(SessionMode::Journal);
    match parse_input("add ", &state) {
        Err(message) => assert_eq!(message, "Journal entry content cannot be empty."),
        other => panic!("expected a refusal, got {:?}", other),
    }
    match parse_input("add  \t  ", &state) {
        Err(message) => assert_eq!(message, "Journal entry content cannot be empty."),
        other => panic!("expected a refusal, got {:?}", other),
    }
}

#[test]
fn parse_plain_text() {
    let journal = in_mode(SessionMode::Journal);
    for line in ["hello there", "add", "added more", " add x", ""] {
        match parse_input(line, &journal) {
            Ok(InteractiveCommand::Text(text)) => assert_eq!(text, line),
            other => panic!("expected text, got {:?}", other),
        }
    }
    let snippet = in_mode(SessionMode::Snippet);
    match parse_input("add fn main() {}", &snippet) {
        Ok(InteractiveCommand::Text(text)) => assert_eq!(text, "add fn main() {}"),
        other => panic!("expected text, got {:?}", other),
    }
}

#[test]
fn advance_switches_mode_and_announces_it() {
    let mut state = SessionState::default();
    match advance(&mut state, "\\snippet") {
        SessionAction::Announce(text) => assert_eq!(text, "Switched to snippet mode."),
        other => panic!("expected an announcement, got {:?}", other),
    }
    assert_eq!(state.mode, SessionMode::Snippet);
    match advance(&mut state, "\\journal") {
        SessionAction::Announce(text) => assert_eq!(text, "Switched to journal mode."),
        other => panic!("expected an announcement, got {:?}", other),
    }
    assert_eq!(state.mode, SessionMode::Journal);
}

#[test]
fn advance_keeps_mode_otherwise() {
    let mut state = in_mode(SessionMode::Note);
    assert!(matches!(advance(&mut state, "\\quit"), SessionAction::Quit));
    assert_eq!(state.mode, SessionMode::Note);
    match advance(&mut state, "some words") {
        SessionAction::Report(text) => {
            assert_eq!(text, "Command not yet implemented: some words")
        }
        other => panic!("expected a report, got {:?}", other),
    }
    assert_eq!(state.mode, SessionMode::Note);
    match advance(&mut state, "\\nope") {
        SessionAction::Report(text) => {
            assert_eq!(text, "Error parsing command: Unknown command: \\nope")
        }
        other => panic!("expected a report, got {:?}", other),
    }
    assert_eq!(state.mode, SessionMode::Note);
}

#[test]
fn advance_hands_on_a_journal_entry() {
    let mut state = SessionState::default();
    match advance(&mut state, "add  Fixed the parser ") {
        SessionAction::StoreJournal(text) => assert_eq!(text, "Fixed the parser"),
        other => panic!("expected an entry to store, got {:?}", other),
    }
    match advance(&mut state, "add    ") {
        SessionAction::Report(text) => assert_eq!(
            text,
            "Error parsing command: Journal entry content cannot be empty."
        ),
        other => panic!("expected a report, got {:?}", other),
    }
}
