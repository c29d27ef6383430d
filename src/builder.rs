//! Building up a configuration step by step.

use vstd::prelude::*;
use crate::config::{Config, ModelConfig, PromptConfig, merged_model, merged_prompt, copy_text};

verus! {

/// The name of the model configuration a fresh installation starts with.
pub const SAMPLE_MODEL: &'static str = "sample_model_gpt";

/// The name of the prompt configuration a fresh installation starts with.
pub const SAMPLE_PROMPT: &'static str = "sample_prompt";

/// The model that the sample model configuration names.
pub const SAMPLE_MODEL_NAME: &'static str = "gpt-5-mini";

/// The endpoint that the sample model configuration names.
pub const SAMPLE_BASE_URL: &'static str = "https://api.openai.com/v1";

/// The content of the sample prompt.
pub const SAMPLE_PROMPT_CONTENT: &'static str = "You are a terminal assistant. \nYou are giving help to user in the terminal.\nGive concise responses whenever possible.\nBecause of terminal cannot render markdown, DO NOT contain any markdown syntax(`,```, #, ...) in your response, use plain text only.\n";

/// What becomes of the record under a name when `new` is set there: merged
/// with the record already there, if any.
pub open spec fn model_after_set(c: Config, name: Seq<char>, new: ModelConfig) -> ModelConfig {
    if c.models@.contains_key(name) {
        merged_model(new, c.models@[name])
    } else {
        new
    }
}

pub open spec fn prompt_after_set(c: Config, name: Seq<char>, new: PromptConfig) -> PromptConfig {
    if c.prompts@.contains_key(name) {
        merged_prompt(new, c.prompts@[name])
    } else {
        new
    }
}

/// Builds a configuration by successive changes.
pub struct ConfigBuilder {
    config: Config,
}

impl ConfigBuilder {
    /// The configuration built so far.
    pub closed spec fn current(&self) -> Config {
        self.config
    }

    pub fn new(config: Config) -> (r: Self)
        ensures
            r.current() == config,
    {
        Self { config }
    }

    /// Sets a model configuration, merged with the one already under that
    /// name; the first model set becomes the default if there is none.
    pub fn set_model(self, name: String, model: ModelConfig) -> (r: Self)
        requires
            self.current().wf(),
        ensures
            r.current().wf(),
            r.current().models@ == self.current().models@.insert(
                name@,
                model_after_set(self.current(), name@, model),
            ),
            r.current().default_model == if self.current().default_model is None {
                Some(name)
            } else {
                self.current().default_model
            },
            r.current().prompts == self.current().prompts,
            r.current().default_prompt == self.current().default_prompt,
            r.current().disable_stream == self.current().disable_stream,
            r.current().pure == self.current().pure,
            r.current().verbose == self.current().verbose,
    {
        let mut s = self;
        let merged = match s.config.models.get(name.as_str()) {
            Some(existing) => model.merge_with(existing),
            None => model,
        };
        if s.config.default_model.is_none() {
            s.config.default_model = Some(name.clone());
        }
        s.config.models.insert(name, merged);
        s
    }

    /// Sets a prompt configuration, merged with the one already under that
    /// name; the first prompt set becomes the default if there is none.
    pub fn set_prompt(self, name: String, prompt: PromptConfig) -> (r: Self)
        requires
            self.current().wf(),
        ensures
            r.current().wf(),
            r.current().prompts@ == self.current().prompts@.insert(
                name@,
                prompt_after_set(self.current(), name@, prompt),
            ),
            r.current().default_prompt == if self.current().default_prompt is None {
                Some(name)
            } else {
                self.current().default_prompt
            },
            r.current().models == self.current().models,
            r.current().default_model == self.current().default_model,
            r.current().disable_stream == self.current().disable_stream,
            r.current().pure == self.current().pure,
            r.current().verbose == self.current().verbose,
    {
        let mut s = self;
        let merged = match s.config.prompts.get(name.as_str()) {
            Some(existing) => prompt.merge_with(existing),
            None => prompt,
        };
        if s.config.default_prompt.is_none() {
            s.config.default_prompt = Some(name.clone());
        }
        s.config.prompts.insert(name, merged);
        s
    }

    /// Makes `name` the default model.
    pub fn set_default_model(self, name: String) -> (r: Self)
        ensures
            r.current() == (Config { default_model: Some(name), ..self.current() }),
    {
        let mut s = self;
        s.config.default_model = Some(name);
        s
    }

    /// Makes `name` the default prompt.
    pub fn set_default_prompt(self, name: String) -> (r: Self)
        ensures
            r.current() == (Config { default_prompt: Some(name), ..self.current() }),
    {
        let mut s = self;
        s.config.default_prompt = Some(name);
        s
    }

    /// Adds the sample model and prompt configurations and makes them the
    /// defaults. A sample model already present keeps its key and temperature.
    pub fn with_defaults(self) -> (r: Self)
        requires
            self.current().wf(),
        ensures
            r.current().wf(),
            r.current().models@.dom() == self.current().models@.dom().insert(SAMPLE_MODEL@),
            forall|k: Seq<char>| k != SAMPLE_MODEL@ && #[trigger] self.current().models@.contains_key(k)
                ==> r.current().models@[k] == self.current().models@[k],
            r.current().models@[SAMPLE_MODEL@].model_name matches Some(n) && n@ == SAMPLE_MODEL_NAME@,
            r.current().models@[SAMPLE_MODEL@].base_url matches Some(u) && u@ == SAMPLE_BASE_URL@,
            r.current().models@[SAMPLE_MODEL@].api_key == if self.current().models@.contains_key(SAMPLE_MODEL@) {
                self.current().models@[SAMPLE_MODEL@].api_key
            } else {
                None
            },
            r.current().models@[SAMPLE_MODEL@].temperature == if self.current().models@.contains_key(SAMPLE_MODEL@) {
                self.current().models@[SAMPLE_MODEL@].temperature
            } else {
                None
            },
            r.current().prompts@.dom() == self.current().prompts@.dom().insert(SAMPLE_PROMPT@),
            forall|k: Seq<char>| k != SAMPLE_PROMPT@ && #[trigger] self.current().prompts@.contains_key(k)
                ==> r.current().prompts@[k] == self.current().prompts@[k],
            r.current().prompts@[SAMPLE_PROMPT@].content@ == SAMPLE_PROMPT_CONTENT@,
            r.current().default_model matches Some(m) && m@ == SAMPLE_MODEL@,
            r.current().default_prompt matches Some(p) && p@ == SAMPLE_PROMPT@,
            r.current().disable_stream == self.current().disable_stream,
            r.current().pure == self.current().pure,
            r.current().verbose == self.current().verbose,
    {
        assert(SAMPLE_PROMPT_CONTENT@.len() > 0) by {
            reveal_strlit("You are a terminal assistant. \nYou are giving help to user in the terminal.\nGive concise responses whenever possible.\nBecause of terminal cannot render markdown, DO NOT contain any markdown syntax(`,```, #, ...) in your response, use plain text only.\n");
        }
        let model = ModelConfig {
            model_name: Some(SAMPLE_MODEL_NAME.to_owned()),
            base_url: Some(SAMPLE_BASE_URL.to_owned()),
            api_key: None,
            temperature: None,
        };
        let prompt = PromptConfig { content: SAMPLE_PROMPT_CONTENT.to_owned() };
        let s = self.set_model(SAMPLE_MODEL.to_owned(), model);
        let s = s.set_prompt(SAMPLE_PROMPT.to_owned(), prompt);
        let s = s.set_default_model(SAMPLE_MODEL.to_owned());
        let s = s.set_default_prompt(SAMPLE_PROMPT.to_owned());
        s
    }

    /// The configuration built.
    pub fn build(self) -> (r: Config)
        ensures
            r == self.current(),
    {
        self.config
    }
}

} // verus!
