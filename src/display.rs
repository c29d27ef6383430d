//! What the configuration listings show: one row per model, one entry per
//! prompt, in the order the configurations were added.

use vstd::prelude::*;
use crate::config::{Config, ModelConfig, PromptConfig};
use crate::strings::{push_stars, stars};

verus! {

/// Width of the name and model-name columns.
pub const NAME_WIDTH: usize = 19;

/// Width of the endpoint column.
pub const URL_WIDTH: usize = 35;

/// `s` when it fits in `max_len` characters, else its first `max_len - 3`
/// characters followed by `...`.
pub open spec fn truncated(s: Seq<char>, max_len: nat) -> Seq<char> {
    if s.len() > max_len {
        s.take(max_len - 3) + "..."@
    } else {
        s
    }
}

/// Shortens a text to a column width.
pub fn truncate(s: &str, max_len: usize) -> (r: String)
    requires
        3 <= max_len,
    ensures
        r@ == truncated(s@, max_len as nat),
{
    let n = s.unicode_len();
    if n > max_len {
        let head = s.substring_char(0, max_len - 3).to_owned();
        head.concat("...")
    } else {
        s.to_owned()
    }
}

/// An API key with its middle hidden: empty stays empty, up to eight
/// characters become asterisks, longer keys keep four characters at each end
/// around three asterisks.
pub open spec fn masked_key(k: Seq<char>) -> Seq<char> {
    if k.len() == 0 {
        seq![]
    } else if k.len() <= 8 {
        stars(k.len())
    } else {
        k.take(4) + stars(3) + k.skip(k.len() - 4)
    }
}

/// Hides an API key for display.
pub fn mask_api_key(key: &str) -> (r: String)
    ensures
        r@ == masked_key(key@),
{
    let n = key.unicode_len();
    if n == 0 {
        return String::new();
    }
    if n <= 8 {
        let mut r = String::new();
        push_stars(&mut r, n);
        assert(r@ =~= stars(n as nat));
        r
    } else {
        let mut r = key.substring_char(0, 4).to_owned();
        push_stars(&mut r, 3);
        assert(key@.subrange(n - 4, n as int) =~= key@.skip(n - 4));
        r.concat(key.substring_char(n - 4, n))
    }
}

/// One row of the model table.
pub struct ModelRow {
    pub name: String,
    pub model_name: String,
    pub base_url: String,
    pub api_key: String,
    pub is_default: bool,
}

/// The text of an optional field: empty when absent.
pub open spec fn or_empty(o: Option<String>) -> Seq<char> {
    match o {
        Some(s) => s@,
        None => seq![],
    }
}

fn text_or_empty(o: &Option<String>) -> (r: &str)
    ensures
        r@ == or_empty(*o),
{
    match o {
        Some(s) => s.as_str(),
        None => {
            proof {
                reveal_strlit("");
            }
            ""
        },
    }
}

/// The row for the model configuration `m` under `name`.
pub open spec fn row_matches(r: ModelRow, name: Seq<char>, m: ModelConfig, default: Option<String>) -> bool {
    &&& r.name@ == truncated(name, NAME_WIDTH as nat)
    &&& r.model_name@ == truncated(or_empty(m.model_name), NAME_WIDTH as nat)
    &&& r.base_url@ == truncated(or_empty(m.base_url), URL_WIDTH as nat)
    &&& r.api_key@ == masked_key(or_empty(m.api_key))
    &&& r.is_default == (default matches Some(d) && d@ == name)
}

fn is_named(default: &Option<String>, name: &String) -> (r: bool)
    ensures
        r == (*default matches Some(d) && d@ == name@),
{
    match default {
        Some(d) => crate::named::same_text(d.as_str(), name.as_str()),
        None => false,
    }
}

/// The rows of the model table, in order.
pub fn model_rows(config: &Config) -> (r: Vec<ModelRow>)
    ensures
        r@.len() == config.models.entries_view().len(),
        forall|i: int|
            0 <= i < r@.len() ==> row_matches(
                #[trigger] r@[i],
                config.models.entries_view()[i].0,
                config.models.entries_view()[i].1,
                config.default_model,
            ),
{
    let n = config.models.len();
    let mut out: Vec<ModelRow> = Vec::new();
    let mut i: usize = 0;
    while i < n
        invariant
            n == config.models.entries_view().len(),
            i <= n,
            out@.len() == i,
            forall|j: int|
                0 <= j < i ==> row_matches(
                    #[trigger] out@[j],
                    config.models.entries_view()[j].0,
                    config.models.entries_view()[j].1,
                    config.default_model,
                ),
        decreases n - i,
    {
        let (name, m) = config.models.entry(i);
        let row = ModelRow {
            name: truncate(name.as_str(), NAME_WIDTH),
            model_name: truncate(text_or_empty(&m.model_name), NAME_WIDTH),
            base_url: truncate(text_or_empty(&m.base_url), URL_WIDTH),
            api_key: mask_api_key(text_or_empty(&m.api_key)),
            is_default: is_named(&config.default_model, name),
        };
        out.push(row);
        i = i + 1;
    }
    out
}

/// One entry of the prompt listing.
pub struct PromptEntry {
    pub name: String,
    pub is_default: bool,
    pub content: String,
}

/// The entries of the prompt listing, in order.
pub fn prompt_entries(config: &Config) -> (r: Vec<PromptEntry>)
    ensures
        r@.len() == config.prompts.entries_view().len(),
        forall|i: int|
            0 <= i < r@.len() ==> {
                let e = config.prompts.entries_view()[i];
                &&& (#[trigger] r@[i]).name@ == e.0
                &&& r@[i].content == e.1.content
                &&& r@[i].is_default == (config.default_prompt matches Some(d) && d@ == e.0)
            },
{
    let n = config.prompts.len();
    let mut out: Vec<PromptEntry> = Vec::new();
    let mut i: usize = 0;
    while i < n
        invariant
            n == config.prompts.entries_view().len(),
            i <= n,
            out@.len() == i,
            forall|j: int|
                0 <= j < i ==> {
                    let e = config.prompts.entries_view()[j];
                    &&& (#[trigger] out@[j]).name@ == e.0
                    &&& out@[j].content == e.1.content
                    &&& out@[j].is_default == (config.default_prompt matches Some(d) && d@ == e.0)
                },
        decreases n - i,
    {
        let (name, p) = config.prompts.entry(i);
        let entry = PromptEntry {
            name: name.clone(),
            is_default: is_named(&config.default_prompt, name),
            content: p.content.clone(),
        };
        out.push(entry);
        i = i + 1;
    }
    out
}

} // verus!
