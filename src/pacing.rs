//! The pacing engine: splits a fragment of text into units (characters or
//! words) and plans their emission with a pause between consecutive units.

use vstd::prelude::*;
use crate::text::{is_white_space, is_ascii_punct, white_space, ascii_punct};

verus! {

/// The granularity at which text is emitted.
#[derive(Clone, Copy, Debug, PartialEq, Eq, Structural)]
pub enum Unit {
    Character,
    Word,
}

/// A character that ends a word; it is emitted with the word it ends.
pub open spec fn is_boundary(c: char) -> bool {
    is_white_space(c) || is_ascii_punct(c)
}

/// Tests whether `c` ends a word.
pub fn boundary(c: char) -> (r: bool)
    ensures
        r == is_boundary(c),
{
    white_space(c) || ascii_punct(c)
}

/// The words of `s`, where `cur` is a partial word already begun: characters
/// accumulate until a boundary character, which closes the word; a non-empty
/// remainder at the end is a last word of its own.
pub open spec fn words_from(s: Seq<char>, cur: Seq<char>) -> Seq<Seq<char>>
    decreases s.len(),
{
    if s.len() == 0 {
        if cur.len() == 0 {
            seq![]
        } else {
            seq![cur]
        }
    } else {
        let next = cur.push(s[0]);
        if is_boundary(s[0]) {
            seq![next] + words_from(s.drop_first(), seq![])
        } else {
            words_from(s.drop_first(), next)
        }
    }
}

/// Each character of `s` as a unit of its own.
pub open spec fn chars_of(s: Seq<char>) -> Seq<Seq<char>> {
    Seq::new(s.len(), |i: int| seq![s[i]])
}

/// The units of `s` at the given granularity.
pub open spec fn units_of(s: Seq<char>, unit: Unit) -> Seq<Seq<char>> {
    match unit {
        Unit::Character => chars_of(s),
        Unit::Word => words_from(s, seq![]),
    }
}

/// The views of a sequence of strings.
pub open spec fn texts_of(v: Seq<String>) -> Seq<Seq<char>> {
    v.map_values(|x: String| x@)
}

/// Splits `text` into its units.
pub fn split_units(text: &str, unit: Unit) -> (r: Vec<String>)
    ensures
        texts_of(r@) == units_of(text@, unit),
{
    let n = text.unicode_len();
    let ghost s = text@;
    let mut out: Vec<String> = Vec::new();
    match unit {
        Unit::Character => {
            let mut i: usize = 0;
            while i < n
                invariant
                    n == s.len(),
                    s == text@,
                    i <= n,
                    texts_of(out@) == chars_of(s).take(i as int),
                decreases n - i,
            {
                let ghost before = out@;
                let c = text.get_char(i);
                let mut one = String::new();
                one.push(c);
                out.push(one);
                proof {
                    assert(one@ =~= seq![s[i as int]]);
                    assert(out@ == before.push(one));
                    assert(texts_of(out@) =~= texts_of(before).push(one@));
                    assert(texts_of(out@) =~= chars_of(s).take(i + 1));
                }
                i = i + 1;
            }
            proof {
                assert(chars_of(s).take(n as int) =~= chars_of(s));
            }
        },
        Unit::Word => {
            let mut cur = String::new();
            let mut i: usize = 0;
            proof {
                assert(s.skip(0) =~= s);
                assert(texts_of(out@) =~= seq![]);
                assert(texts_of(out@) + words_from(s, cur@) =~= words_from(s, seq![]));
            }
            while i < n
                invariant
                    n == s.len(),
                    s == text@,
                    i <= n,
                    texts_of(out@) + words_from(s.skip(i as int), cur@) == words_from(s, seq![]),
                decreases n - i,
            {
                let c = text.get_char(i);
                let ghost before = texts_of(out@);
                let ghost cur0 = cur@;
                proof {
                    assert(s.skip(i as int)[0] == c);
                    assert(s.skip(i as int).drop_first() =~= s.skip(i + 1));
                }
                cur.push(c);
                if boundary(c) {
                    out.push(cur);
                    cur = String::new();
                    proof {
                        assert(texts_of(out@) =~= before.push(cur0.push(c)));
                        assert(before + (seq![cur0.push(c)] + words_from(s.skip(i + 1), seq![]))
                            =~= before.push(cur0.push(c)) + words_from(s.skip(i + 1), seq![]));
                    }
                }
                i = i + 1;
            }
            proof {
                assert(s.skip(n as int).len() == 0);
            }
            if cur.unicode_len() > 0 {
                let ghost before = texts_of(out@);
                out.push(cur);
                proof {
                    assert(texts_of(out@) =~= before + seq![cur@]);
                }
            } else {
                proof {
                    assert(texts_of(out@) =~= texts_of(out@) + seq![]);
                }
            }
        },
    }
    out
}

/// The units planned for one fragment: the whole fragment at once when pacing
/// is bypassed, else its units at the configured granularity. Empty text
/// plans nothing.
pub open spec fn planned_units(s: Seq<char>, unit: Unit, bypass: bool) -> Seq<Seq<char>> {
    if bypass {
        if s.len() == 0 {
            seq![]
        } else {
            seq![s]
        }
    } else {
        units_of(s, unit)
    }
}

/// Joining the words of `s` after a begun word `cur` gives back `cur + s`.
pub proof fn lemma_words_join(s: Seq<char>, cur: Seq<char>)
    ensures
        words_from(s, cur).flatten() == cur + s,
    decreases s.len(),
{
    if s.len() == 0 {
        if cur.len() > 0 {
            seq![cur].lemma_flatten_one_element();
        }
        assert(cur + s =~= cur);
    } else {
        let next = cur.push(s[0]);
        lemma_words_join(s.drop_first(), if is_boundary(s[0]) { seq![] } else { next });
        if is_boundary(s[0]) {
            let rest = words_from(s.drop_first(), seq![]);
            assert((seq![next] + rest).drop_first() =~= rest);
            assert(seq![] + s.drop_first() =~= s.drop_first());
        }
        assert(next + s.drop_first() =~= cur + s);
    }
}

/// Joining the characters of `s`, each as a unit, gives back `s`.
pub proof fn lemma_chars_join(s: Seq<char>)
    ensures
        chars_of(s).flatten() == s,
    decreases s.len(),
{
    if s.len() > 0 {
        lemma_chars_join(s.drop_first());
        assert(chars_of(s).drop_first() =~= chars_of(s.drop_first()));
        assert(seq![s[0]] + s.drop_first() =~= s);
    } else {
        assert(chars_of(s) =~= seq![]);
    }
}

/// Whatever the granularity, the units of a text, joined in order, are the
/// text again: nothing is lost, duplicated or reordered.
pub proof fn lemma_units_join(s: Seq<char>, unit: Unit, bypass: bool)
    ensures
        units_of(s, unit).flatten() == s,
        planned_units(s, unit, bypass).flatten() == s,
{
    lemma_chars_join(s);
    lemma_words_join(s, seq![]);
    assert(seq![] + s =~= s);
    if s.len() > 0 {
        seq![s].lemma_flatten_one_element();
    }
}

/// In character mode a text of N characters gives exactly N units, the i-th
/// being its i-th character.
pub proof fn lemma_character_units(s: Seq<char>)
    ensures
        units_of(s, Unit::Character).len() == s.len(),
        forall|i: int| 0 <= i < s.len() ==> #[trigger] units_of(s, Unit::Character)[i] == seq![s[i]],
{
}

/// One unit of output, and whether a pause of one interval precedes it.
#[derive(Clone, Debug)]
pub struct Emission {
    pub pause_before: bool,
    pub text: String,
}

/// Whether `u` is a complete unit: any character, or a word that ends in a
/// boundary. A word cut off by the end of a fragment may go on in the next.
pub open spec fn unit_closes(u: Seq<char>, unit: Unit) -> bool {
    unit is Character || (u.len() > 0 && is_boundary(u.last()))
}

/// Plans the emission of fragments. It remembers whether the last unit planned
/// was complete, so that a pause separates complete units across fragments
/// too, while a word split between two fragments is not paused inside; nothing
/// waits before the first unit or after the last.
#[derive(Clone, Copy, Debug)]
pub struct Pacer {
    pub unit: Unit,
    pub bypass: bool,
    /// The next unit waits one interval first.
    pub pause_pending: bool,
}

impl Pacer {
    /// A pacer that has emitted nothing yet.
    pub fn new(unit: Unit, bypass: bool) -> (r: Pacer)
        ensures
            r.unit == unit,
            r.bypass == bypass,
            !r.pause_pending,
    {
        Pacer { unit, bypass, pause_pending: false }
    }

    /// Plans the emission of one fragment: its units in order, each preceded
    /// by a pause except the first when no complete unit came before it; no
    /// pause at all when pacing is bypassed.
    pub fn plan(&mut self, text: &str) -> (r: Vec<Emission>)
        ensures
            r@.len() == planned_units(text@, old(self).unit, old(self).bypass).len(),
            forall|i: int|
                0 <= i < r@.len() ==> (#[trigger] r@[i]).text@ == planned_units(
                    text@,
                    old(self).unit,
                    old(self).bypass,
                )[i] && r@[i].pause_before == (!old(self).bypass && (i > 0
                    || old(self).pause_pending)),
            final(self).unit == old(self).unit,
            final(self).bypass == old(self).bypass,
            final(self).pause_pending == if r@.len() > 0 {
                unit_closes(
                    planned_units(text@, old(self).unit, old(self).bypass).last(),
                    old(self).unit,
                )
            } else {
                old(self).pause_pending
            },
    {
        let ghost u = planned_units(text@, self.unit, self.bypass);
        let units: Vec<String> = if self.bypass {
            let mut v: Vec<String> = Vec::new();
            if text.unicode_len() > 0 {
                v.push(text.to_owned());
                proof {
                    assert(texts_of(v@) =~= seq![text@]);
                }
            } else {
                proof {
                    assert(texts_of(v@) =~= seq![]);
                }
            }
            v
        } else {
            split_units(text, self.unit)
        };
        assert(texts_of(units@) == u);
        let mut out: Vec<Emission> = Vec::new();
        let n = units.len();
        let mut i: usize = 0;
        while i < n
            invariant
                n == units@.len(),
                texts_of(units@) == u,
                i <= n,
                out@.len() == i,
                forall|j: int|
                    0 <= j < i ==> (#[trigger] out@[j]).text@ == u[j] && out@[j].pause_before == (
                    !self.bypass && (j > 0 || self.pause_pending)),
            decreases n - i,
        {
            let pause_before = !self.bypass && (i > 0 || self.pause_pending);
            let piece = units[i].clone();
            proof {
                assert(texts_of(units@)[i as int] == units@[i as int]@);
            }
            out.push(Emission { pause_before, text: piece });
            i = i + 1;
        }
        if n > 0 {
            let last = &units[n - 1];
            proof {
                assert(texts_of(units@)[n - 1] == last@);
            }
            let k = last.as_str().unicode_len();
            self.pause_pending = match self.unit {
                Unit::Character => true,
                Unit::Word => k > 0 && boundary(last.as_str().get_char(k - 1)),
            };
        }
        out
    }
}

} // verus!
