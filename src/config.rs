//! Configuration records: models, prompts, defaults and global flags, and the
//! rules by which one record fills the gaps of another.

use vstd::prelude::*;
use crate::named::{Duplicate, NamedMap};

verus! {

/// A sampling temperature, held as the bit pattern of its 32-bit float: the
/// library moves it around and never computes with it.
#[derive(Clone, Copy, Debug, PartialEq, Eq, Structural)]
pub struct Temperature {
    pub bits: u32,
}

/// An exact copy of an optional text.
pub fn copy_text(o: &Option<String>) -> (r: Option<String>)
    ensures
        r == *o,
{
    match o {
        Some(s) => Some(s.clone()),
        None => None,
    }
}

/// `a` when it holds a value, else `b`.
pub open spec fn first_some<T>(a: Option<T>, b: Option<T>) -> Option<T> {
    if a is Some {
        a
    } else {
        b
    }
}

/// How to reach and drive one model.
#[derive(Clone, Debug)]
pub struct ModelConfig {
    pub model_name: Option<String>,
    pub base_url: Option<String>,
    pub api_key: Option<String>,
    pub temperature: Option<Temperature>,
}

/// `m` with each missing field taken from `base`.
pub open spec fn merged_model(m: ModelConfig, base: ModelConfig) -> ModelConfig {
    ModelConfig {
        model_name: first_some(m.model_name, base.model_name),
        base_url: first_some(m.base_url, base.base_url),
        api_key: first_some(m.api_key, base.api_key),
        temperature: first_some(m.temperature, base.temperature),
    }
}

impl ModelConfig {
    /// Merges with `base`: the fields of `self` win, and `base` fills the
    /// missing ones.
    pub fn merge_with(self, base: &ModelConfig) -> (r: Self)
        ensures
            r == merged_model(self, *base),
    {
        ModelConfig {
            model_name: if self.model_name.is_some() {
                self.model_name
            } else {
                copy_text(&base.model_name)
            },
            base_url: if self.base_url.is_some() {
                self.base_url
            } else {
                copy_text(&base.base_url)
            },
            api_key: if self.api_key.is_some() {
                self.api_key
            } else {
                copy_text(&base.api_key)
            },
            temperature: if self.temperature.is_some() {
                self.temperature
            } else {
                base.temperature
            },
        }
    }
}

impl Duplicate for ModelConfig {
    fn duplicate(&self) -> (r: Self) {
        ModelConfig {
            model_name: copy_text(&self.model_name),
            base_url: copy_text(&self.base_url),
            api_key: copy_text(&self.api_key),
            temperature: self.temperature,
        }
    }
}

/// A system prompt.
#[derive(Clone, Debug)]
pub struct PromptConfig {
    pub content: String,
}

/// `p`, unless its content is empty, in which case that of `base`.
pub open spec fn merged_prompt(p: PromptConfig, base: PromptConfig) -> PromptConfig {
    if p.content@.len() == 0 {
        base
    } else {
        p
    }
}

impl PromptConfig {
    /// Merges with `base`: an empty content is taken from `base`.
    pub fn merge_with(self, base: &PromptConfig) -> (r: Self)
        ensures
            r == merged_prompt(self, *base),
    {
        if self.content.as_str().unicode_len() == 0 {
            PromptConfig { content: base.content.clone() }
        } else {
            self
        }
    }
}

impl Duplicate for PromptConfig {
    fn duplicate(&self) -> (r: Self) {
        PromptConfig { content: self.content.clone() }
    }
}

/// The whole configuration.
pub struct Config {
    pub models: NamedMap<ModelConfig>,
    pub prompts: NamedMap<PromptConfig>,
    pub default_model: Option<String>,
    pub default_prompt: Option<String>,
    pub disable_stream: bool,
    pub pure: bool,
    pub verbose: bool,
}

impl Config {
    /// Both maps hold each name once.
    pub open spec fn wf(&self) -> bool {
        self.models.wf() && self.prompts.wf()
    }

    /// No model, no prompt, no defaults, every flag off.
    pub fn default() -> (r: Config)
        ensures
            r.wf(),
            r.models@ == Map::<Seq<char>, ModelConfig>::empty(),
            r.prompts@ == Map::<Seq<char>, PromptConfig>::empty(),
            r.models.names().len() == 0,
            r.prompts.names().len() == 0,
            r.default_model is None,
            r.default_prompt is None,
            !r.disable_stream,
            !r.pure,
            !r.verbose,
    {
        Config {
            models: NamedMap::new(),
            prompts: NamedMap::new(),
            default_model: None,
            default_prompt: None,
            disable_stream: false,
            pure: false,
            verbose: false,
        }
    }

    /// An exact copy.
    pub fn duplicate(&self) -> (r: Config)
        requires
            self.wf(),
        ensures
            r.wf(),
            r.models.entries_view() == self.models.entries_view(),
            r.prompts.entries_view() == self.prompts.entries_view(),
            r.models@ == self.models@,
            r.prompts@ == self.prompts@,
            r.default_model == self.default_model,
            r.default_prompt == self.default_prompt,
            r.disable_stream == self.disable_stream,
            r.pure == self.pure,
            r.verbose == self.verbose,
    {
        Config {
            models: self.models.duplicate(),
            prompts: self.prompts.duplicate(),
            default_model: copy_text(&self.default_model),
            default_prompt: copy_text(&self.default_prompt),
            disable_stream: self.disable_stream,
            pure: self.pure,
            verbose: self.verbose,
        }
    }
}

} // verus!
