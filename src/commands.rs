//! Command-line arguments as plain data, and what each configuration command
//! does to a configuration.

use vstd::prelude::*;
use crate::config::{Config, ModelConfig, PromptConfig, Temperature, copy_text, first_some};
use crate::builder::model_after_set;
use crate::named::same_text;

verus! {

/// The parsed command line.
pub struct Cli {
    pub command: Option<Commands>,
    /// The model configuration to use for this run.
    pub model: Option<String>,
    /// The prompt configuration to use for this run.
    pub prompt: Option<String>,
    pub verbose: bool,
    pub pure: bool,
    pub disable_stream: bool,
    /// The chat input, when no subcommand is given.
    pub input: Vec<String>,
}

/// The subcommands.
pub enum Commands {
    SetConfig { config: SetCommands },
    Use { config: UseCommands },
    Delete { config: DeleteCommands },
    List { config_type: String },
}

/// Setting a model or prompt configuration.
pub enum SetCommands {
    Model {
        name: String,
        base_url: Option<String>,
        model_name: Option<String>,
        api_key: Option<String>,
        temperature: Option<Temperature>,
    },
    Prompt { name: String, content: String },
}

/// Choosing the default model or prompt configuration.
#[derive(Clone, Debug, PartialEq, Eq)]
pub enum UseCommands {
    Model { name: String },
    Prompt { name: String },
}

/// Deleting a model or prompt configuration.
#[derive(Clone, Debug, PartialEq, Eq)]
pub enum DeleteCommands {
    Model { name: String },
    Prompt { name: String },
}

/// A configuration that a command names does not exist.
#[derive(Clone, Copy, Debug, PartialEq, Eq, Structural)]
pub enum CommandError {
    ModelNotFound,
    PromptNotFound,
}

/// The configuration a run works with: the file's maps, the command line's
/// choices of model and prompt where given, and each flag set by either.
pub fn merge_config(file_config: &Config, cli: &Cli) -> (r: Config)
    requires
        file_config.wf(),
    ensures
        r.wf(),
        r.models.entries_view() == file_config.models.entries_view(),
        r.prompts.entries_view() == file_config.prompts.entries_view(),
        r.models@ == file_config.models@,
        r.prompts@ == file_config.prompts@,
        r.default_model == first_some(cli.model, file_config.default_model),
        r.default_prompt == first_some(cli.prompt, file_config.default_prompt),
        r.disable_stream == (cli.disable_stream || file_config.disable_stream),
        r.pure == (cli.pure || file_config.pure),
        r.verbose == (cli.verbose || file_config.verbose),
{
    let copy = file_config.duplicate();
    Config {
        models: copy.models,
        prompts: copy.prompts,
        default_model: if cli.model.is_some() {
            copy_text(&cli.model)
        } else {
            copy.default_model
        },
        default_prompt: if cli.prompt.is_some() {
            copy_text(&cli.prompt)
        } else {
            copy.default_prompt
        },
        disable_stream: cli.disable_stream || file_config.disable_stream,
        pure: cli.pure || file_config.pure,
        verbose: cli.verbose || file_config.verbose,
    }
}

/// The model record that a `set model` command describes.
pub open spec fn set_model_record(
    base_url: Option<String>,
    model_name: Option<String>,
    api_key: Option<String>,
    temperature: Option<Temperature>,
) -> ModelConfig {
    ModelConfig { model_name, base_url, api_key, temperature }
}

/// Applies a `set` command: a model is merged with the one already under its
/// name; a prompt replaces the one under its name. Defaults do not change.
pub fn apply_set_command(config: &mut Config, command: SetCommands)
    requires
        old(config).wf(),
    ensures
        final(config).wf(),
        final(config).default_model == old(config).default_model,
        final(config).default_prompt == old(config).default_prompt,
        final(config).disable_stream == old(config).disable_stream,
        final(config).pure == old(config).pure,
        final(config).verbose == old(config).verbose,
        match command {
            SetCommands::Model { name, base_url, model_name, api_key, temperature } => {
                &&& final(config).models@ == old(config).models@.insert(
                    name@,
                    model_after_set(
                        *old(config),
                        name@,
                        set_model_record(base_url, model_name, api_key, temperature),
                    ),
                )
                &&& final(config).prompts == old(config).prompts
            },
            SetCommands::Prompt { name, content } => {
                &&& final(config).prompts@ == old(config).prompts@.insert(
                    name@,
                    PromptConfig { content },
                )
                &&& final(config).models == old(config).models
            },
        },
{
    match command {
        SetCommands::Model { name, base_url, model_name, api_key, temperature } => {
            let new_model = ModelConfig { base_url, model_name, api_key, temperature };
            let merged = match config.models.get(name.as_str()) {
                Some(existing) => new_model.merge_with(existing),
                None => new_model,
            };
            config.models.insert(name, merged);
        },
        SetCommands::Prompt { name, content } => {
            config.prompts.insert(name, PromptConfig { content });
        },
    }
}

/// Applies a `use` command: the named configuration becomes the default when
/// it exists; otherwise nothing changes and the error says what is missing.
pub fn apply_use_command(config: &mut Config, command: &UseCommands) -> (r: Result<(), CommandError>)
    requires
        old(config).wf(),
    ensures
        final(config).wf(),
        final(config).models == old(config).models,
        final(config).prompts == old(config).prompts,
        final(config).disable_stream == old(config).disable_stream,
        final(config).pure == old(config).pure,
        final(config).verbose == old(config).verbose,
        match command {
            UseCommands::Model { name } => {
                &&& r is Ok <==> old(config).models@.contains_key(name@)
                &&& r is Err ==> r == Err::<(), CommandError>(CommandError::ModelNotFound)
                    && final(config).default_model == old(config).default_model
                &&& r is Ok ==> final(config).default_model == Some(*name)
                &&& final(config).default_prompt == old(config).default_prompt
            },
            UseCommands::Prompt { name } => {
                &&& r is Ok <==> old(config).prompts@.contains_key(name@)
                &&& r is Err ==> r == Err::<(), CommandError>(CommandError::PromptNotFound)
                    && final(config).default_prompt == old(config).default_prompt
                &&& r is Ok ==> final(config).default_prompt == Some(*name)
                &&& final(config).default_model == old(config).default_model
            },
        },
{
    match command {
        UseCommands::Model { name } => {
            if config.models.contains(name.as_str()) {
                config.default_model = Some(name.clone());
                Ok(())
            } else {
                Err(CommandError::ModelNotFound)
            }
        },
        UseCommands::Prompt { name } => {
            if config.prompts.contains(name.as_str()) {
                config.default_prompt = Some(name.clone());
                Ok(())
            } else {
                Err(CommandError::PromptNotFound)
            }
        },
    }
}

/// Applies a `delete` command: the named configuration, if any, is removed.
pub fn apply_delete_command(config: &mut Config, command: &DeleteCommands)
    requires
        old(config).wf(),
    ensures
        final(config).wf(),
        final(config).default_model == old(config).default_model,
        final(config).default_prompt == old(config).default_prompt,
        final(config).disable_stream == old(config).disable_stream,
        final(config).pure == old(config).pure,
        final(config).verbose == old(config).verbose,
        match command {
            DeleteCommands::Model { name } => {
                &&& final(config).models@ == old(config).models@.remove(name@)
                &&& final(config).prompts == old(config).prompts
            },
            DeleteCommands::Prompt { name } => {
                &&& final(config).prompts@ == old(config).prompts@.remove(name@)
                &&& final(config).models == old(config).models
            },
        },
{
    match command {
        DeleteCommands::Model { name } => {
            let _ = config.models.remove(name.as_str());
        },
        DeleteCommands::Prompt { name } => {
            let _ = config.prompts.remove(name.as_str());
        },
    }
}

/// Which lists a `list` command shows: models for "models", "model" or
/// "all"; prompts for "prompts", "prompt" or "all".
pub fn list_targets(config_type: &str) -> (r: (bool, bool))
    ensures
        r.0 == (config_type@ == "models"@ || config_type@ == "model"@ || config_type@ == "all"@),
        r.1 == (config_type@ == "prompts"@ || config_type@ == "prompt"@ || config_type@ == "all"@),
{
    let all = same_text(config_type, "all");
    let models = same_text(config_type, "models") || same_text(config_type, "model") || all;
    let prompts = same_text(config_type, "prompts") || same_text(config_type, "prompt") || all;
    (models, prompts)
}

} // verus!
