//! The status indicator: the lifecycle state of one response, and the text of
//! the status line that shows it.

use vstd::prelude::*;
use crate::text::{decimal, decimal_of};

verus! {

/// The lifecycle state of a response. `Responding` is the initial state;
/// `Done` and `Error` are terminal.
#[derive(Clone, Copy, Debug, PartialEq, Eq, Structural)]
pub enum Status {
    Responding,
    Done,
    Error,
}

impl Status {
    /// Whether no further transition can leave this state.
    pub open spec fn is_terminal(self) -> bool {
        !(self is Responding)
    }

    /// Tests whether the state is terminal.
    pub fn terminal(&self) -> (r: bool)
        ensures
            r == self.is_terminal(),
    {
        !matches!(self, Status::Responding)
    }

    /// The glyph that opens the status line in this state.
    pub fn glyph(&self) -> (r: &'static str)
        ensures
            r@ == glyph_of(*self),
    {
        match self {
            Status::Responding => " > ",
            Status::Done => " \u{2714} ",
            Status::Error => " \u{2718} ",
        }
    }
}

/// The glyph of each state.
pub open spec fn glyph_of(s: Status) -> Seq<char> {
    match s {
        Status::Responding => " > "@,
        Status::Done => " \u{2714} "@,
        Status::Error => " \u{2718} "@,
    }
}

/// The state after `requested` is asked for in state `current`: a terminal
/// state never changes, and from `Responding` any state may be entered.
pub open spec fn next_status(current: Status, requested: Status) -> Status {
    if current.is_terminal() {
        current
    } else {
        requested
    }
}

/// Applies a requested state change.
pub fn transition(current: Status, requested: Status) -> (r: Status)
    ensures
        r == next_status(current, requested),
{
    if current.terminal() {
        current
    } else {
        requested
    }
}

/// Two decimal digits at least, with a leading zero below ten.
pub open spec fn two_digits(n: nat) -> Seq<char> {
    if n < 10 {
        seq!['0'] + decimal_of(n)
    } else {
        decimal_of(n)
    }
}

/// Elapsed whole seconds as minutes and seconds, `mm:ss`.
pub open spec fn clock_of(secs: nat) -> Seq<char> {
    two_digits(secs / 60) + seq![':'] + two_digits(secs % 60)
}

fn two_digit_text(n: u64) -> (r: String)
    ensures
        r@ == two_digits(n as nat),
{
    if n < 10 {
        let mut s = String::new();
        s.push('0');
        let d = decimal(n);
        let r = s.concat(d.as_str());
        assert(r@ =~= seq!['0'] + decimal_of(n as nat));
        r
    } else {
        decimal(n)
    }
}

/// Formats elapsed milliseconds as `mm:ss` (minutes keep growing past 99).
pub fn format_clock(elapsed_ms: u64) -> (r: String)
    ensures
        r@ == clock_of((elapsed_ms / 1000) as nat),
{
    let secs = elapsed_ms / 1000;
    let mut s = two_digit_text(secs / 60);
    s.push(':');
    let r = s.concat(two_digit_text(secs % 60).as_str());
    r
}

/// The status line: the state's glyph, the elapsed time, and the labels of the
/// model configuration, the model and the prompt configuration.
pub open spec fn status_line_of(
    status: Status,
    elapsed_ms: nat,
    model_config_name: Seq<char>,
    model_name: Seq<char>,
    prompt_config_name: Seq<char>,
) -> Seq<char> {
    glyph_of(status) + seq![' '] + clock_of(elapsed_ms / 1000) + "  model: "@ + model_config_name
        + seq!['('] + model_name + seq![')'] + "    prompt: "@ + prompt_config_name
}

/// Composes the status line.
pub fn status_line(
    status: Status,
    elapsed_ms: u64,
    model_config_name: &str,
    model_name: &str,
    prompt_config_name: &str,
) -> (r: String)
    ensures
        r@ == status_line_of(
            status,
            elapsed_ms as nat,
            model_config_name@,
            model_name@,
            prompt_config_name@,
        ),
{
    let mut s = status.glyph().to_owned();
    s.push(' ');
    let s = s.concat(format_clock(elapsed_ms).as_str());
    let s = s.concat("  model: ");
    let mut s = s.concat(model_config_name);
    s.push('(');
    let mut s = s.concat(model_name);
    s.push(')');
    let s = s.concat("    prompt: ");
    s.concat(prompt_config_name)
}

} // verus!
