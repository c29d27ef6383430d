use aichat::builder::{ConfigBuilder, SAMPLE_MODEL, SAMPLE_PROMPT};
use aichat::commands::{
    apply_delete_command, apply_set_command, apply_use_command, list_targets, merge_config, Cli,
    CommandError, DeleteCommands, SetCommands, UseCommands,
};
use aichat::config::{Config, ModelConfig, PromptConfig, Temperature};
use aichat::display::{mask_api_key, model_rows, prompt_entries, truncate};

fn model(name: Option<&str>, url: Option<&str>, key: Option<&str>) -> ModelConfig {
    ModelConfig {
        model_name: name.map(|s| s.to_string()),
        base_url: url.map(|s| s.to_string()),
        api_key: key.map(|s| s.to_string()),
        temperature: None,
    }
}

fn cli() -> Cli {
    Cli {
        command: None,
        model: None,
        prompt: None,
        verbose: false,
        pure: false,
        disable_stream: false,
        input: vec![],
    }
}

#[test]
fn model_merge_prefers_own_fields() {
    let own = ModelConfig { temperature: Some(Temperature { bits: 7 }), ..model(Some("a"), None, None) };
    let base = ModelConfig { temperature: Some(Temperature { bits: 9 }), ..model(Some("b"), Some("u"), Some("k")) };
    let m = own.merge_with(&base);
    assert_eq!(m.model_name.as_deref(), Some("a"));
    assert_eq!(m.base_url.as_deref(), Some("u"));
    assert_eq!(m.api_key.as_deref(), Some("k"));
    assert_eq!(m.temperature, Some(Temperature { bits: 7 }));
}

#[test]
fn prompt_merge_fills_empty_content() {
    let base = PromptConfig { content: "base".to_string() };
    assert_eq!(PromptConfig { content: String::new() }.merge_with(&base).content, "base");
    assert_eq!(PromptConfig { content: "own".to_string() }.merge_with(&base).content, "own");
}

#[test]
fn builder_defaults() {
    let c = ConfigBuilder::new(Config::default()).with_defaults().build();
    assert_eq!(c.default_model.as_deref(), Some(SAMPLE_MODEL));
    assert_eq!(c.default_prompt.as_deref(), Some(SAMPLE_PROMPT));
    let m = c.models.get(SAMPLE_MODEL).unwrap();
    assert_eq!(m.model_name.as_deref(), Some("gpt-5-mini"));
    assert_eq!(m.base_url.as_deref(), Some("https://api.openai.com/v1"));
    assert!(m.api_key.is_none());
    assert!(c.prompts.get(SAMPLE_PROMPT).unwrap().content.starts_with("You are a terminal assistant."));
    assert_eq!(c.models.len(), 1);
}

#[test]
fn builder_first_model_becomes_default_and_merges() {
    let b = ConfigBuilder::new(Config::default())
        .set_model("one".to_string(), model(Some("m1"), Some("u1"), None))
        .set_model("two".to_string(), model(Some("m2"), None, None))
        .set_model("one".to_string(), model(None, None, Some("key")));
    let c = b.build();
    assert_eq!(c.default_model.as_deref(), Some("one"));
    let one = c.models.get("one").unwrap();
    assert_eq!(one.model_name.as_deref(), Some("m1"));
    assert_eq!(one.api_key.as_deref(), Some("key"));
    assert_eq!(c.models.len(), 2);
    assert_eq!(c.models.entry(0).0, "one");
    let c = ConfigBuilder::new(c).set_default_model("two".to_string()).build();
    assert_eq!(c.default_model.as_deref(), Some("two"));
}

#[test]
fn cli_overrides_file() {
    let file = ConfigBuilder::new(Config::default()).with_defaults().build();
    let mut args = cli();
    let merged = merge_config(&file, &args);
    assert_eq!(merged.default_model.as_deref(), Some(SAMPLE_MODEL));
    assert!(!merged.pure);
    args.model = Some("other".to_string());
    args.pure = true;
    let merged = merge_config(&file, &args);
    assert_eq!(merged.default_model.as_deref(), Some("other"));
    assert_eq!(merged.default_prompt.as_deref(), Some(SAMPLE_PROMPT));
    assert!(merged.pure);
    assert!(merged.models.contains(SAMPLE_MODEL));
}

#[test]
fn set_use_delete_commands() {
    let mut c = Config::default();
    apply_set_command(
        &mut c,
        SetCommands::Model {
            name: "m".to_string(),
            base_url: Some("u".to_string()),
            model_name: Some("n".to_string()),
            api_key: None,
            temperature: None,
        },
    );
    apply_set_command(
        &mut c,
        SetCommands::Model {
            name: "m".to_string(),
            base_url: None,
            model_name: None,
            api_key: Some("k".to_string()),
            temperature: None,
        },
    );
    let m = c.models.get("m").unwrap();
    assert_eq!(m.base_url.as_deref(), Some("u"));
    assert_eq!(m.api_key.as_deref(), Some("k"));
    assert!(c.default_model.is_none());
    apply_set_command(&mut c, SetCommands::Prompt { name: "p".to_string(), content: "x".to_string() });
    apply_set_command(&mut c, SetCommands::Prompt { name: "p".to_string(), content: "".to_string() });
    assert_eq!(c.prompts.get("p").unwrap().content, "");

    assert_eq!(
        apply_use_command(&mut c, &UseCommands::Model { name: "nope".to_string() }),
        Err(CommandError::ModelNotFound)
    );
    assert!(c.default_model.is_none());
    assert_eq!(apply_use_command(&mut c, &UseCommands::Model { name: "m".to_string() }), Ok(()));
    assert_eq!(c.default_model.as_deref(), Some("m"));
    assert_eq!(
        apply_use_command(&mut c, &UseCommands::Prompt { name: "q".to_string() }),
        Err(CommandError::PromptNotFound)
    );
    assert_eq!(apply_use_command(&mut c, &UseCommands::Prompt { name: "p".to_string() }), Ok(()));
    assert_eq!(c.default_prompt.as_deref(), Some("p"));

    apply_delete_command(&mut c, &DeleteCommands::Model { name: "m".to_string() });
    assert!(!c.models.contains("m"));
    apply_delete_command(&mut c, &DeleteCommands::Prompt { name: "absent".to_string() });
    assert!(c.prompts.contains("p"));
}

#[test]
fn list_target_names() {
    assert_eq!(list_targets("all"), (true, true));
    assert_eq!(list_targets("model"), (true, false));
    assert_eq!(list_targets("models"), (true, false));
    assert_eq!(list_targets("prompt"), (false, true));
    assert_eq!(list_targets("prompts"), (false, true));
    assert_eq!(list_targets("other"), (false, false));
}

#[test]
fn truncate_and_mask() {
    assert_eq!(truncate("short", 19), "short");
    assert_eq!(truncate("abcdefghijklmnopqrstuvwxyz", 19), "abcdefghijklmnop...");
    assert_eq!(truncate("abcdefghijklmnopqrs", 19), "abcdefghijklmnopqrs");
    assert_eq!(mask_api_key(""), "");
    assert_eq!(mask_api_key("12345678"), "********");
    assert_eq!(mask_api_key("sk-abcdefgh1234"), "sk-a***1234");
}

#[test]
fn listing_rows() {
    let c = ConfigBuilder::new(Config::default())
        .set_model("first".to_string(), model(Some("gpt"), Some("https://example.com/v1"), Some("secretkey99")))
        .set_model("second".to_string(), model(None, None, None))
        .set_prompt("p".to_string(), PromptConfig { content: "be brief".to_string() })
        .build();
    let rows = model_rows(&c);
    assert_eq!(rows.len(), 2);
    assert_eq!(rows[0].name, "first");
    assert!(rows[0].is_default);
    assert_eq!(rows[0].api_key, "secr***ey99");
    assert_eq!(rows[1].model_name, "");
    assert!(!rows[1].is_default);
    let prompts = prompt_entries(&c);
    assert_eq!(prompts.len(), 1);
    assert!(prompts[0].is_default);
    assert_eq!(prompts[0].content, "be brief");
}
