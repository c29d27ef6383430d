//! The decisions around one chat request: which model and prompt it uses,
//! how the renderer is configured for it, which API key it sends, and how the
//! pieces of a streamed reply become messages for the renderer.

use vstd::prelude::*;
use crate::config::{Config, ModelConfig, PromptConfig, copy_text};
use crate::named::Duplicate;
use crate::pacing::{Unit, texts_of};
use crate::render::{MessageView, RenderConfig, RenderMessage};
use crate::status::Status;
use crate::text::{join_by, joined_by};

verus! {

/// Units per second at which replies are typed out.
pub const TYPE_SPEED: u32 = 30;

/// Why a chat cannot start.
#[derive(Clone, Copy, Debug, PartialEq, Eq, Structural)]
pub enum ChatSetupError {
    /// No model configuration is chosen.
    NoModel,
    /// No prompt configuration is chosen.
    NoPrompt,
    /// The chosen model configuration does not exist.
    ModelNotFound,
    /// The chosen prompt configuration does not exist.
    PromptNotFound,
    /// The input holds nothing but whitespace.
    EmptyInput,
}

impl ChatSetupError {
    /// The process exit status for the error: 1 for empty input, 78 (a
    /// configuration error) otherwise.
    pub fn exit_code(&self) -> (r: i32)
        ensures
            r == if *self is EmptyInput {
                1i32
            } else {
                78i32
            },
    {
        match self {
            ChatSetupError::EmptyInput => 1,
            _ => 78,
        }
    }
}

/// What a chat runs with.
pub struct ChatSelection {
    pub model_config_name: String,
    pub model: ModelConfig,
    pub prompt_config_name: String,
    pub prompt: PromptConfig,
}

/// A name is chosen when it is present and not empty.
pub open spec fn chosen(o: Option<String>) -> bool {
    o matches Some(s) && s@.len() > 0
}

fn has_name(o: &Option<String>) -> (r: bool)
    ensures
        r == chosen(*o),
{
    match o {
        Some(s) => s.as_str().unicode_len() > 0,
        None => false,
    }
}

/// Picks the model and prompt configurations of the defaults. The checks come
/// in order: a model is chosen, a prompt is chosen, the model exists, the
/// prompt exists.
pub fn resolve_chat(config: &Config) -> (r: Result<ChatSelection, ChatSetupError>)
    requires
        config.wf(),
    ensures
        !chosen(config.default_model) ==> r == Err::<ChatSelection, ChatSetupError>(ChatSetupError::NoModel),
        chosen(config.default_model) && !chosen(config.default_prompt) ==> r == Err::<ChatSelection, ChatSetupError>(ChatSetupError::NoPrompt),
        chosen(config.default_model) && chosen(config.default_prompt) && !config.models@.contains_key(
            config.default_model->0@,
        ) ==> r == Err::<ChatSelection, ChatSetupError>(ChatSetupError::ModelNotFound),
        chosen(config.default_model) && chosen(config.default_prompt) && config.models@.contains_key(
            config.default_model->0@,
        ) && !config.prompts@.contains_key(config.default_prompt->0@) ==> r == Err::<ChatSelection, ChatSetupError>(ChatSetupError::PromptNotFound),
        r matches Ok(sel) ==> {
            &&& chosen(config.default_model)
            &&& chosen(config.default_prompt)
            &&& sel.model_config_name == config.default_model->0
            &&& sel.prompt_config_name == config.default_prompt->0
            &&& config.models@.contains_key(sel.model_config_name@)
            &&& config.prompts@.contains_key(sel.prompt_config_name@)
            &&& sel.model == config.models@[sel.model_config_name@]
            &&& sel.prompt == config.prompts@[sel.prompt_config_name@]
        },
        r != Err::<ChatSelection, ChatSetupError>(ChatSetupError::EmptyInput),
{
    if !has_name(&config.default_model) {
        return Err(ChatSetupError::NoModel);
    }
    if !has_name(&config.default_prompt) {
        return Err(ChatSetupError::NoPrompt);
    }
    let model_name = copy_text(&config.default_model).unwrap();
    let prompt_name = copy_text(&config.default_prompt).unwrap();
    let model = match config.models.get(model_name.as_str()) {
        Some(m) => m.duplicate(),
        None => {
            return Err(ChatSetupError::ModelNotFound);
        },
    };
    let prompt = match config.prompts.get(prompt_name.as_str()) {
        Some(p) => p.duplicate(),
        None => {
            return Err(ChatSetupError::PromptNotFound);
        },
    };
    Ok(ChatSelection {
        model_config_name: model_name,
        model,
        prompt_config_name: prompt_name,
        prompt,
    })
}

/// Joins the words of the command line into the chat input, with single
/// spaces.
pub fn join_words(words: &Vec<String>) -> (r: String)
    ensures
        r@ == joined_by(texts_of(words@), ' '),
{
    join_by(words, ' ')
}

/// A model configuration without a model name cannot be sent.
#[derive(Clone, Copy, Debug, PartialEq, Eq, Structural)]
pub enum CompletionError {
    MissingModelName,
    MissingBaseUrl,
    /// The service reported failures while streaming.
    Transport,
}

/// The renderer's configuration for a chat: words typed at the standard
/// speed, labelled with the configuration names and the model's name.
pub fn render_config_for(
    model_config_name: String,
    model_config: &ModelConfig,
    prompt_config_name: String,
    pure: bool,
    disable_stream: bool,
) -> (r: Result<RenderConfig, CompletionError>)
    ensures
        r is Err <==> model_config.model_name is None,
        r matches Err(e) ==> e == CompletionError::MissingModelName,
        r matches Ok(c) ==> c == (RenderConfig {
            pure,
            model_config_name,
            model_name: model_config.model_name->0,
            prompt_config_name,
            type_speed: TYPE_SPEED,
            disable_stream,
            unit: Unit::Word,
        }),
{
    match &model_config.model_name {
        None => Err(CompletionError::MissingModelName),
        Some(name) => Ok(
            RenderConfig {
                pure,
                model_config_name,
                model_name: name.clone(),
                prompt_config_name,
                type_speed: TYPE_SPEED,
                disable_stream,
                unit: Unit::Word,
            },
        ),
    }
}

/// The endpoint of a model configuration, which a request cannot do without.
pub fn endpoint_of(model_config: &ModelConfig) -> (r: Result<String, CompletionError>)
    ensures
        r is Err <==> model_config.base_url is None,
        r matches Err(e) ==> e == CompletionError::MissingBaseUrl,
        r matches Ok(u) ==> u == model_config.base_url->0,
{
    match &model_config.base_url {
        None => Err(CompletionError::MissingBaseUrl),
        Some(u) => Ok(u.clone()),
    }
}

/// The API key to send: one given by the environment overrides the
/// configured one; with neither, the key is empty.
pub fn choose_api_key(from_env: Option<String>, configured: &Option<String>) -> (r: String)
    ensures
        from_env matches Some(k) ==> r == k,
        from_env is None && configured is Some ==> r == configured->0,
        from_env is None && configured is None ==> r@ == Seq::<char>::empty(),
{
    match from_env {
        Some(k) => k,
        None => match configured {
            Some(c) => c.clone(),
            None => String::new(),
        },
    }
}

/// The texts among `deltas` that are present, in order.
pub open spec fn present_texts(deltas: Seq<Option<String>>) -> Seq<Seq<char>>
    decreases deltas.len(),
{
    if deltas.len() == 0 {
        seq![]
    } else {
        present_texts(deltas.drop_last()) + match deltas.last() {
            Some(t) => seq![t@],
            None => seq![],
        }
    }
}

/// The content messages for a sequence of texts.
pub open spec fn content_messages(texts: Seq<Seq<char>>) -> Seq<MessageView> {
    texts.map_values(|t: Seq<char>| MessageView::Content(t))
}

pub open spec fn views_of(msgs: Seq<RenderMessage>) -> Seq<MessageView> {
    msgs.map_values(|m: RenderMessage| m@)
}

/// Follows a streamed reply: forwards every piece of content, in order, and
/// remembers whether the service reported a failure.
pub struct StreamConsumer {
    pub failed: bool,
}

impl StreamConsumer {
    pub fn new() -> (r: StreamConsumer)
        ensures
            !r.failed,
    {
        StreamConsumer { failed: false }
    }

    /// The content messages for one chunk of the stream: one per choice that
    /// carries content, in order.
    pub fn on_chunk(&self, deltas: Vec<Option<String>>) -> (r: Vec<RenderMessage>)
        ensures
            views_of(r@) == content_messages(present_texts(deltas@)),
    {
        let n = deltas.len();
        let mut out: Vec<RenderMessage> = Vec::new();
        let mut i: usize = 0;
        while i < n
            invariant
                n == deltas@.len(),
                i <= n,
                views_of(out@) == content_messages(present_texts(deltas@.take(i as int))),
            decreases n - i,
        {
            let ghost before = out@;
            proof {
                assert(deltas@.take(i + 1).drop_last() =~= deltas@.take(i as int));
                assert(deltas@.take(i + 1).last() == deltas@[i as int]);
            }
            match &deltas[i] {
                Some(t) => {
                    out.push(RenderMessage::Content(t.clone()));
                    proof {
                        assert(views_of(out@) =~= views_of(before).push(MessageView::Content(t@)));
                        assert(content_messages(present_texts(deltas@.take(i + 1))) =~= content_messages(
                            present_texts(deltas@.take(i as int)),
                        ).push(MessageView::Content(t@)));
                    }
                },
                None => {
                    proof {
                        assert(present_texts(deltas@.take(i + 1)) =~= present_texts(
                            deltas@.take(i as int),
                        ));
                    }
                },
            }
            i = i + 1;
        }
        proof {
            assert(deltas@.take(n as int) =~= deltas@);
        }
        out
    }

    /// The service reported a failure.
    pub fn on_error(&mut self)
        ensures
            final(self).failed,
    {
        self.failed = true;
    }

    /// The status to set when the stream ends: an error if any failure was
    /// reported, else done.
    pub fn closing(&self) -> (r: RenderMessage)
        ensures
            r@ == MessageView::SetStatus(
                if self.failed {
                    Status::Error
                } else {
                    Status::Done
                },
            ),
    {
        if self.failed {
            RenderMessage::SetStatus(Status::Error)
        } else {
            RenderMessage::SetStatus(Status::Done)
        }
    }

    /// How the chat ends once rendering has finished.
    pub fn outcome(&self) -> (r: Result<(), CompletionError>)
        ensures
            r is Err <==> self.failed,
            r matches Err(e) ==> e == CompletionError::Transport,
    {
        if self.failed {
            Err(CompletionError::Transport)
        } else {
            Ok(())
        }
    }
}

/// The message for a reply that came whole: the content of its first choice,
/// or the text `null` when that choice has none; nothing without a choice.
pub fn whole_reply(first_choice: Option<Option<String>>) -> (r: Option<RenderMessage>)
    ensures
        first_choice is None <==> r is None,
        first_choice matches Some(Some(t)) ==> (r matches Some(m) && m@ == MessageView::Content(t@)),
        first_choice matches Some(None) ==> (r matches Some(m) && m@ == MessageView::Content("null"@)),
{
    match first_choice {
        None => None,
        Some(Some(t)) => Some(RenderMessage::Content(t)),
        Some(None) => Some(RenderMessage::Content("null".to_owned())),
    }
}

} // verus!
