//! The filter that a query text becomes before it reaches the search
//! provider.
//!
//! The provider matches a display name against a `LIKE` pattern, in which
//! `*` and `?` are wildcards and a backslash takes the next character
//! literally. The text that the user typed is data, so it is escaped and
//! then put between two `*`: the pattern matches the names that hold the
//! text as a substring.

use vstd::prelude::*;
use vstd::string::*;

verus! {

/// The filter's format. `%@` is replaced by the pattern; the second
/// condition keeps applications only.
pub const PREDICATE_FORMAT: &'static str =
    "kMDItemDisplayName LIKE %@ AND kMDItemContentType == \"com.apple.application\"";

/// A filter for the search provider: the format and the one argument that
/// fills its placeholder.
#[derive(Debug, PartialEq, Eq)]
pub struct Predicate {
    pub format: String,
    pub pattern: String,
}

/// Whether a character has a meaning of its own in a `LIKE` pattern.
pub open spec fn is_like_special(c: char) -> bool {
    c == '*' || c == '?' || c == '\\'
}

/// One character of text as it stands in a pattern.
pub open spec fn escape_char(c: char) -> Seq<char> {
    if is_like_special(c) {
        seq!['\\', c]
    } else {
        seq![c]
    }
}

/// A text as it stands in a pattern: each special character behind a
/// backslash, all others as they are.
pub open spec fn escape_like(text: Seq<char>) -> Seq<char>
    decreases text.len(),
{
    if text.len() == 0 {
        Seq::empty()
    } else {
        escape_char(text[0]) + escape_like(text.drop_first())
    }
}

/// The text that a pattern without wildcards matches: a backslash is
/// dropped and the character behind it kept.
pub open spec fn unescape_like(pattern: Seq<char>) -> Seq<char>
    decreases pattern.len(),
{
    if pattern.len() == 0 {
        Seq::empty()
    } else if pattern[0] == '\\' && pattern.len() >= 2 {
        seq![pattern[1]] + unescape_like(pattern.skip(2))
    } else {
        seq![pattern[0]] + unescape_like(pattern.drop_first())
    }
}

/// The pattern that matches the names which hold `text` as a substring.
pub open spec fn substring_pattern(text: Seq<char>) -> Seq<char> {
    seq!['*'] + escape_like(text) + seq!['*']
}

/// Escaping a text piece by piece gives the same as escaping it whole.
pub proof fn lemma_escape_concat(a: Seq<char>, b: Seq<char>)
    ensures
        escape_like(a + b) == escape_like(a) + escape_like(b),
    decreases a.len(),
{
    if a.len() == 0 {
        assert(a + b =~= b);
        assert(escape_like(a) + escape_like(b) =~= escape_like(b));
    } else {
        lemma_escape_concat(a.drop_first(), b);
        assert((a + b).drop_first() =~= a.drop_first() + b);
        assert((a + b)[0] == a[0]);
        assert(escape_char(a[0]) + (escape_like(a.drop_first()) + escape_like(b)) =~= (escape_char(
            a[0],
        ) + escape_like(a.drop_first())) + escape_like(b));
    }
}

/// Escaping loses nothing: the text can be read back from its escaped
/// form, so two texts have the same escaped form only if they are equal.
pub proof fn lemma_escape_round_trip(text: Seq<char>)
    ensures
        unescape_like(escape_like(text)) == text,
    decreases text.len(),
{
    if text.len() > 0 {
        let rest = escape_like(text.drop_first());
        let whole = escape_like(text);
        lemma_escape_round_trip(text.drop_first());
        if is_like_special(text[0]) {
            assert(whole.skip(2) =~= rest);
            assert(whole[1] == text[0]);
        } else {
            assert(whole.drop_first() =~= rest);
            assert(whole[0] == text[0]);
        }
        assert(seq![text[0]] + text.drop_first() =~= text);
    }
}

/// Builds the filter for a query text. An empty text has no filter: there
/// is nothing to look up. Every other text has one, with the text escaped
/// in its pattern.
pub fn build_predicate(text: &str) -> (predicate: Option<Predicate>)
    ensures
        predicate is None <==> text@.len() == 0,
        predicate matches Some(p) ==> p.format@ == PREDICATE_FORMAT@ && p.pattern@
            == substring_pattern(text@),
{
    let n = text.unicode_len();
    if n == 0 {
        return None;
    }
    proof {
        reveal_strlit("*");
        reveal_strlit("\\");
    }
    let mut pattern = String::from_str("*");
    let mut i: usize = 0;
    while i < n
        invariant
            i <= n,
            n == text@.len(),
            pattern@ == seq!['*'] + escape_like(text@.take(i as int)),
            "\\"@ == seq!['\\'],
        decreases n - i,
    {
        let c = text.get_char(i);
        if c == '*' || c == '?' || c == '\\' {
            pattern.append("\\");
        }
        pattern.append(text.substring_char(i, i + 1));
        proof {
            let done = text@.take(i as int);
            let one = text@.subrange(i as int, i + 1);
            assert(one =~= seq![c]);
            assert(text@.take(i + 1) =~= done + one);
            lemma_escape_concat(done, one);
            assert(one.drop_first() =~= Seq::<char>::empty());
            assert(escape_like(one.drop_first()) =~= Seq::<char>::empty());
            assert(escape_like(one) =~= escape_char(c));
        }
        i = i + 1;
    }
    assert(text@.take(n as int) =~= text@);
    pattern.append("*");
    Some(Predicate { format: String::from_str(PREDICATE_FORMAT), pattern })
}

} // verus!
