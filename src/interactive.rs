//! Collecting a message typed over several lines: an empty line sends it, a
//! line that starts with Ctrl-C abandons it.

use vstd::prelude::*;
use crate::strings::{trim, trimmed};
use crate::text::{join_by, joined_by};

verus! {

/// What a typed line means.
#[derive(Clone, Copy, Debug, PartialEq, Eq, Structural)]
pub enum LineOutcome {
    /// The line was kept; more may follow.
    More,
    /// An empty line: the message is complete.
    Finished,
    /// The user pressed Ctrl-C.
    Cancelled,
}

/// The lines typed so far, each trimmed.
pub struct InputCollector {
    lines: Vec<String>,
}

impl View for InputCollector {
    type V = Seq<Seq<char>>;

    closed spec fn view(&self) -> Seq<Seq<char>> {
        self.lines@.map_values(|x: String| x@)
    }
}

/// The meaning of a raw line, judged on its trimmed text.
pub open spec fn outcome_of(raw: Seq<char>) -> LineOutcome {
    let t = trimmed(raw);
    if t.len() > 0 && t[0] == '\u{3}' {
        LineOutcome::Cancelled
    } else if t.len() == 0 {
        LineOutcome::Finished
    } else {
        LineOutcome::More
    }
}

impl InputCollector {
    pub fn new() -> (r: InputCollector)
        ensures
            r@ == Seq::<Seq<char>>::empty(),
    {
        let r = InputCollector { lines: Vec::new() };
        assert(r@ =~= Seq::<Seq<char>>::empty());
        r
    }

    /// Takes one typed line; only a line that goes on the message is kept.
    pub fn on_line(&mut self, raw: &str) -> (r: LineOutcome)
        ensures
            r == outcome_of(raw@),
            r is More ==> final(self)@ == old(self)@.push(trimmed(raw@)),
            !(r is More) ==> final(self)@ == old(self)@,
    {
        let t = trim(raw);
        let n = t.unicode_len();
        if n > 0 && t.get_char(0) == '\u{3}' {
            return LineOutcome::Cancelled;
        }
        if n == 0 {
            return LineOutcome::Finished;
        }
        self.lines.push(t.to_owned());
        assert(self@ =~= old(self)@.push(trimmed(raw@)));
        LineOutcome::More
    }

    /// The message: the kept lines joined by newlines.
    pub fn text(&self) -> (r: String)
        ensures
            r@ == joined_by(self@, '\n'),
    {
        join_by(&self.lines, '\n')
    }
}

} // verus!
