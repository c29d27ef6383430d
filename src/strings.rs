//! String helpers: safe prefixes, masking of secrets, trimming, and the check
//! that a parameter is not empty.

use vstd::prelude::*;
use crate::text::{all_white, is_white_space, white_space};

verus! {

/// `k` asterisks.
pub open spec fn stars(k: nat) -> Seq<char> {
    Seq::new(k, |i: int| '*')
}

/// Appends `k` asterisks.
pub fn push_stars(s: &mut String, k: usize)
    ensures
        final(s)@ == old(s)@ + stars(k as nat),
{
    let mut i: usize = 0;
    while i < k
        invariant
            i <= k,
            s@ == old(s)@ + stars(i as nat),
        decreases k - i,
    {
        s.push('*');
        i = i + 1;
        assert(s@ =~= old(s)@ + stars(i as nat));
    }
}

/// Prefixes that never split a character.
pub trait StringUtilsTrait {
    /// The characters of the text.
    spec fn chars_view(&self) -> Seq<char>;

    /// The first `max_chars` characters, or the whole text when it is shorter.
    fn safe_substring(&self, max_chars: usize) -> (r: &str)
        ensures
            r@ == self.chars_view().take(
                if max_chars < self.chars_view().len() {
                    max_chars as int
                } else {
                    self.chars_view().len() as int
                },
            ),
    ;
}

impl StringUtilsTrait for str {
    open spec fn chars_view(&self) -> Seq<char> {
        self@
    }

    fn safe_substring(&self, max_chars: usize) -> (r: &str) {
        let n = self.unicode_len();
        let end = if max_chars < n {
            max_chars
        } else {
            n
        };
        self.substring_char(0, end)
    }
}

impl StringUtilsTrait for String {
    open spec fn chars_view(&self) -> Seq<char> {
        self@
    }

    fn safe_substring(&self, max_chars: usize) -> (r: &str) {
        self.as_str().safe_substring(max_chars)
    }
}

/// A secret with most of it hidden: nothing stays nothing; up to four
/// characters keep the first; up to ten keep two at each end around four
/// asterisks; longer ones keep four at each end.
pub open spec fn masked_of(s: Seq<char>) -> Seq<char> {
    let n = s.len();
    if n == 0 {
        seq![]
    } else if n == 1 {
        seq!['*']
    } else if n <= 4 {
        s.take(1) + stars((n - 1) as nat)
    } else if n <= 10 {
        s.take(2) + stars(4) + s.skip(n - 2)
    } else {
        s.take(4) + stars(4) + s.skip(n - 4)
    }
}

/// Helpers for secrets.
pub struct StringUtils {}

impl StringUtils {
    /// Masks a secret for display.
    pub fn mask_sensitive(s: &String) -> (r: String)
        ensures
            r@ == masked_of(s@),
    {
        let t = s.as_str();
        let n = t.unicode_len();
        if n == 0 {
            String::new()
        } else if n == 1 {
            let mut r = String::new();
            r.push('*');
            assert(r@ =~= seq!['*']);
            r
        } else if n <= 4 {
            let mut r = t.substring_char(0, 1).to_owned();
            push_stars(&mut r, n - 1);
            r
        } else {
            let keep: usize = if n <= 10 {
                2
            } else {
                4
            };
            let mut r = t.substring_char(0, keep).to_owned();
            push_stars(&mut r, 4);
            let r = r.concat(t.substring_char(n - keep, n));
            assert(t@.subrange(n - keep, n as int) =~= t@.skip(n - keep));
            r
        }
    }
}

/// Leading whitespace removed.
pub open spec fn trim_start_of(s: Seq<char>) -> Seq<char>
    decreases s.len(),
{
    if s.len() > 0 && is_white_space(s[0]) {
        trim_start_of(s.drop_first())
    } else {
        s
    }
}

/// Trailing whitespace removed.
pub open spec fn trim_end_of(s: Seq<char>) -> Seq<char>
    decreases s.len(),
{
    if s.len() > 0 && is_white_space(s.last()) {
        trim_end_of(s.drop_last())
    } else {
        s
    }
}

/// Leading and trailing whitespace removed.
pub open spec fn trimmed(s: Seq<char>) -> Seq<char> {
    trim_end_of(trim_start_of(s))
}

proof fn lemma_trim_start(s: Seq<char>, i: int)
    requires
        0 <= i <= s.len(),
        forall|j: int| 0 <= j < i ==> is_white_space(#[trigger] s[j]),
        i == s.len() || !is_white_space(s[i]),
    ensures
        trim_start_of(s) == s.skip(i),
    decreases i,
{
    if i > 0 {
        assert(is_white_space(s[0]));
        let t = s.drop_first();
        assert forall|j: int| 0 <= j < i - 1 implies is_white_space(#[trigger] t[j]) by {
            assert(t[j] == s[j + 1]);
        }
        lemma_trim_start(t, i - 1);
        assert(t.skip(i - 1) =~= s.skip(i));
    } else {
        assert(s.skip(0) =~= s);
    }
}

proof fn lemma_trim_end(s: Seq<char>, k: int)
    requires
        0 <= k <= s.len(),
        forall|j: int| k <= j < s.len() ==> is_white_space(#[trigger] s[j]),
        k == 0 || !is_white_space(s[k - 1]),
    ensures
        trim_end_of(s) == s.take(k),
    decreases s.len() - k,
{
    if k < s.len() {
        assert(is_white_space(s.last()));
        let t = s.drop_last();
        assert forall|j: int| k <= j < t.len() implies is_white_space(#[trigger] t[j]) by {
            assert(t[j] == s[j]);
        }
        lemma_trim_end(t, k);
        assert(t.take(k) =~= s.take(k));
    } else {
        assert(s.take(k) =~= s);
    }
}

/// Removes leading and trailing whitespace.
pub fn trim(s: &str) -> (r: &str)
    ensures
        r@ == trimmed(s@),
{
    let n = s.unicode_len();
    let mut i: usize = 0;
    while i < n && white_space(s.get_char(i))
        invariant
            n == s@.len(),
            i <= n,
            forall|j: int| 0 <= j < i ==> is_white_space(#[trigger] s@[j]),
        decreases n - i,
    {
        i = i + 1;
    }
    proof {
        lemma_trim_start(s@, i as int);
    }
    let mut k: usize = n;
    while k > i && white_space(s.get_char(k - 1))
        invariant
            n == s@.len(),
            i <= k <= n,
            forall|j: int| k <= j < n ==> is_white_space(#[trigger] s@[j]),
        decreases k,
    {
        k = k - 1;
    }
    proof {
        let t = s@.skip(i as int);
        assert forall|j: int| k - i <= j < t.len() implies is_white_space(#[trigger] t[j]) by {
            assert(t[j] == s@[j + i]);
        }
        if k > i {
            assert(t[k - i - 1] == s@[k - 1]);
        }
        lemma_trim_end(t, k - i);
        assert(t.take(k - i) =~= s@.subrange(i as int, k as int));
    }
    s.substring_char(i, k)
}

/// Accepts a parameter unless it is empty or only whitespace.
pub fn non_empty_string(s: &str) -> (r: Result<String, String>)
    ensures
        r is Err <==> all_white(s@),
        r matches Ok(v) ==> v@ == s@,
        r matches Err(m) ==> m@ == "param cannot be empty"@,
{
    if crate::text::is_blank(s) {
        Err("param cannot be empty".to_owned())
    } else {
        Ok(s.to_owned())
    }
}

} // verus!
