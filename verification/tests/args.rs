use conversation_surface::ids::{AIConversationId, EntityId};
use conversation_surface::prompt_stream::{start, PromptStreamRequest};
use conversation_surface::tui_args::{TuiArgs, TuiArgsError};

const ID: AIConversationId = AIConversationId { value: 0x550e8400_e29b_41d4_a716_446655440000 };
const ID_TEXT: &str = "550e8400-e29b-41d4-a716-446655440000";

fn args(texts: &[&str]) -> Vec<String> {
    texts.iter().map(|text| text.to_string()).collect()
}

/// Parses a prompt and typed conversation ID.
#[test]
fn parses_prompt_and_conversation_id() {
    let conversation_id = ID;
    assert_eq!(
        TuiArgs::parse(vec![
            "--conversation-id".to_owned(),
            conversation_id.to_text(),
            "--prompt".to_owned(),
            "hello".to_owned(),
        ])
        .unwrap(),
        TuiArgs {
            prompt: Some("hello".to_owned()),
            conversation_id: Some(conversation_id),
        }
    );
}

/// Rejects flags whose values are missing.
#[test]
fn rejects_missing_argument_value() {
    let error = TuiArgs::parse(vec!["--prompt".to_owned()]).unwrap_err();
    assert_eq!(error.message(), "--prompt requires a value");
}

/// Rejects malformed conversation IDs during frontend argument parsing.
#[test]
fn rejects_invalid_conversation_id() {
    let error =
        TuiArgs::parse(vec!["--conversation-id".to_owned(), "invalid".to_owned()]).unwrap_err();
    assert!(error.message().starts_with("Invalid conversation ID:"));
}

/// Rejects unsupported TUI frontend arguments.
#[test]
fn rejects_unknown_argument() {
    let error = TuiArgs::parse(vec!["--unknown".to_owned()]).unwrap_err();
    assert_eq!(error.message(), "Unknown argument: --unknown");
}

#[test]
fn no_arguments_ask_for_nothing() {
    assert_eq!(
        TuiArgs::parse(vec![]),
        Ok(TuiArgs { prompt: None, conversation_id: None })
    );
}

#[test]
fn last_value_of_a_flag_counts_whatever_it_looks_like() {
    assert_eq!(
        TuiArgs::parse(args(&["--prompt", "a", "--prompt", "--prompt"])),
        Ok(TuiArgs { prompt: Some("--prompt".to_owned()), conversation_id: None })
    );
}

#[test]
fn first_refused_argument_is_reported() {
    assert_eq!(
        TuiArgs::parse(args(&["--prompt", "a", "b", "--conversation-id", "c"])),
        Err(TuiArgsError::UnknownArgument { argument: "b".to_owned() })
    );
    assert_eq!(
        TuiArgs::parse(args(&["--conversation-id", "c", "b"])),
        Err(TuiArgsError::InvalidConversationId { value: "c".to_owned() })
    );
    assert_eq!(
        TuiArgs::parse(args(&["--conversation-id"])),
        Err(TuiArgsError::MissingValue { flag: "--conversation-id".to_owned() })
    );
}

#[test]
fn identifiers_are_written_and_read() {
    assert_eq!(ID.to_text(), ID_TEXT);
    assert_eq!(AIConversationId::from_text(ID_TEXT), Some(ID));
    assert_eq!(AIConversationId::from_text(&ID_TEXT.to_uppercase()), Some(ID));
    for value in [0, 1, 0xf, u128::MAX, 0x0123_4567_89ab_cdef_0123_4567_89ab_cdef] {
        let id = AIConversationId { value };
        assert_eq!(AIConversationId::from_text(&id.to_text()), Some(id));
    }
    assert_eq!(
        AIConversationId { value: u128::MAX }.to_text(),
        "ffffffff-ffff-ffff-ffff-ffffffffffff"
    );
}

#[test]
fn texts_that_are_no_identifiers_are_refused() {
    for text in [
        "",
        "invalid",
        "550e8400e29b41d4a716446655440000",
        "550e8400-e29b-41d4-a716-44665544000",
        "550e8400-e29b-41d4-a716-4466554400000",
        "550e8400-e29b-41d4-a716-44665544000g",
        "550e8400-e29b-41d4-a7164-46655440000",
        "550e8400_e29b_41d4_a716_446655440000",
        "\u{e9}50e8400-e29b-41d4-a716-446655440000",
    ] {
        assert_eq!(AIConversationId::from_text(text), None, "{text}");
    }
}

#[test]
fn surfaces_are_shown_in_decimal() {
    assert_eq!(EntityId { value: 0 }.to_text(), "0");
    assert_eq!(EntityId { value: 9 }.to_text(), "9");
    assert_eq!(EntityId { value: 10 }.to_text(), "10");
    assert_eq!(EntityId { value: u64::MAX }.to_text(), "18446744073709551615");
}

#[test]
fn only_a_prompt_starts_a_stream() {
    assert_eq!(start(TuiArgs { prompt: None, conversation_id: Some(ID) }), None);
    assert_eq!(
        start(TuiArgs { prompt: Some("hello".to_owned()), conversation_id: Some(ID) }),
        Some(PromptStreamRequest { prompt: "hello".to_owned(), conversation_id: Some(ID) })
    );
}
