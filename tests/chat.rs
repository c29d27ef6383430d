use aichat::chat::{
    choose_api_key, endpoint_of, join_words, render_config_for, resolve_chat, whole_reply,
    ChatSetupError, CompletionError, StreamConsumer, TYPE_SPEED,
};
use aichat::builder::ConfigBuilder;
use aichat::config::{Config, ModelConfig, PromptConfig};
use aichat::interactive::{InputCollector, LineOutcome};
use aichat::render::RenderMessage;
use aichat::status::Status;
use aichat::strings::{non_empty_string, trim, StringUtils, StringUtilsTrait};
use aichat::text::is_blank;

fn content(m: &RenderMessage) -> Option<String> {
    match m {
        RenderMessage::Content(t) => Some(t.clone()),
        _ => None,
    }
}

#[test]
fn chat_selection_checks_in_order() {
    let mut c = Config::default();
    assert!(matches!(resolve_chat(&c), Err(ChatSetupError::NoModel)));
    c.default_model = Some(String::new());
    assert!(matches!(resolve_chat(&c), Err(ChatSetupError::NoModel)));
    c.default_model = Some("m".to_string());
    assert!(matches!(resolve_chat(&c), Err(ChatSetupError::NoPrompt)));
    c.default_prompt = Some("p".to_string());
    assert!(matches!(resolve_chat(&c), Err(ChatSetupError::ModelNotFound)));
    let mut c = ConfigBuilder::new(c)
        .set_model("m".to_string(), ModelConfig { model_name: Some("gpt".to_string()), base_url: None, api_key: None, temperature: None })
        .build();
    assert!(matches!(resolve_chat(&c), Err(ChatSetupError::PromptNotFound)));
    c = ConfigBuilder::new(c).set_prompt("p".to_string(), PromptConfig { content: "hi".to_string() }).build();
    let sel = resolve_chat(&c).unwrap();
    assert_eq!(sel.model_config_name, "m");
    assert_eq!(sel.model.model_name.as_deref(), Some("gpt"));
    assert_eq!(sel.prompt.content, "hi");
    assert_eq!(ChatSetupError::NoModel.exit_code(), 78);
    assert_eq!(ChatSetupError::EmptyInput.exit_code(), 1);
}

#[test]
fn render_config_from_model() {
    let m = ModelConfig { model_name: Some("gpt".to_string()), base_url: None, api_key: None, temperature: None };
    let rc = render_config_for("cfg".to_string(), &m, "p".to_string(), true, false).unwrap();
    assert_eq!(rc.model_name, "gpt");
    assert_eq!(rc.type_speed, TYPE_SPEED);
    assert!(rc.pure);
    let none = ModelConfig { model_name: None, ..m.clone() };
    assert!(matches!(
        render_config_for("c".to_string(), &none, "p".to_string(), false, false),
        Err(CompletionError::MissingModelName)
    ));
    assert!(matches!(endpoint_of(&m), Err(CompletionError::MissingBaseUrl)));
}

#[test]
fn api_key_precedence() {
    assert_eq!(choose_api_key(Some("env".to_string()), &Some("cfg".to_string())), "env");
    assert_eq!(choose_api_key(None, &Some("cfg".to_string())), "cfg");
    assert_eq!(choose_api_key(None, &None), "");
}

#[test]
fn stream_pieces_become_messages() {
    let mut consumer = StreamConsumer::new();
    let msgs = consumer.on_chunk(vec![Some("a".to_string()), None, Some("b".to_string())]);
    let texts: Vec<Option<String>> = msgs.iter().map(content).collect();
    assert_eq!(texts, vec![Some("a".to_string()), Some("b".to_string())]);
    assert!(matches!(consumer.closing(), RenderMessage::SetStatus(Status::Done)));
    assert!(consumer.outcome().is_ok());
    consumer.on_error();
    assert!(matches!(consumer.closing(), RenderMessage::SetStatus(Status::Error)));
    assert!(matches!(consumer.outcome(), Err(CompletionError::Transport)));
}

#[test]
fn whole_reply_message() {
    assert!(whole_reply(None).is_none());
    assert_eq!(content(&whole_reply(Some(Some("x".to_string()))).unwrap()).as_deref(), Some("x"));
    assert_eq!(content(&whole_reply(Some(None)).unwrap()).as_deref(), Some("null"));
}

#[test]
fn input_words_and_lines() {
    assert_eq!(join_words(&vec!["hello".to_string(), "there".to_string()]), "hello there");
    assert_eq!(join_words(&vec![]), "");
    assert!(is_blank(" \t\n"));
    assert!(!is_blank(" a "));
    let mut c = InputCollector::new();
    assert_eq!(c.on_line("  first line \n"), LineOutcome::More);
    assert_eq!(c.on_line("second"), LineOutcome::More);
    assert_eq!(c.on_line("   \n"), LineOutcome::Finished);
    assert_eq!(c.text(), "first line\nsecond");
    assert_eq!(c.on_line("\u{3}"), LineOutcome::Cancelled);
    assert_eq!(c.text(), "first line\nsecond");
}

#[test]
fn string_helpers() {
    assert_eq!(trim("  x y \t"), "x y");
    assert_eq!(trim("\u{3000}z"), "z");
    assert_eq!(trim("   "), "");
    assert_eq!(non_empty_string("  "), Err("param cannot be empty".to_string()));
    assert_eq!(non_empty_string(" a"), Ok(" a".to_string()));
    assert_eq!("héllo".safe_substring(2), "hé");
    assert_eq!("hi".safe_substring(20), "hi");
    assert_eq!("héllo".to_string().safe_substring(0), "");
    assert_eq!(StringUtils::mask_sensitive(&String::new()), "");
    assert_eq!(StringUtils::mask_sensitive(&"a".to_string()), "*");
    assert_eq!(StringUtils::mask_sensitive(&"abcd".to_string()), "a***");
    assert_eq!(StringUtils::mask_sensitive(&"abcdefgh".to_string()), "ab****gh");
    assert_eq!(StringUtils::mask_sensitive(&"sk-1234567890xyz".to_string()), "sk-1****0xyz");
}
