//! Text for the messenger through which the supervisor reports.

use crate::text::{chars_of, string_of};
use vstd::prelude::*;

verus! {

/// Whether a character has a meaning in the messenger's markup and must be
/// escaped.
pub open spec fn is_markup(c: char) -> bool {
    ||| c == '_' || c == '*' || c == '[' || c == ']' || c == '(' || c == ')'
    ||| c == '~' || c == '`' || c == '>' || c == '#' || c == '+' || c == '-'
    ||| c == '=' || c == '|' || c == '{' || c == '}' || c == '.' || c == '!'
}

/// The text from index `i` on with a backslash before every character of
/// the markup.
pub open spec fn escaped_from(text: Seq<char>, i: int) -> Seq<char>
    decreases text.len() - i,
{
    if i < 0 || i >= text.len() {
        seq![]
    } else if is_markup(text[i]) {
        seq!['\\', text[i]] + escaped_from(text, i + 1)
    } else {
        seq![text[i]] + escaped_from(text, i + 1)
    }
}

fn markup(c: char) -> (out: bool)
    ensures
        out == is_markup(c),
{
    c == '_' || c == '*' || c == '[' || c == ']' || c == '(' || c == ')' || c == '~' || c == '`'
        || c == '>' || c == '#' || c == '+' || c == '-' || c == '=' || c == '|' || c == '{'
        || c == '}' || c == '.' || c == '!'
}

/// The text with a backslash before every character that has a meaning in
/// the messenger's markup.
pub fn escape_markdown_v2(text: &str) -> (out: String)
    ensures
        out@ == escaped_from(text@, 0),
{
    let t = chars_of(text);
    let mut buf: Vec<char> = Vec::new();
    let mut i: usize = 0;
    assert(buf@ + escaped_from(t@, 0) =~= escaped_from(t@, 0));
    while i < t.len()
        invariant
            i <= t.len(),
            escaped_from(t@, 0) == buf@ + escaped_from(t@, i as int),
        decreases t.len() - i,
    {
        let ghost before = buf@;
        if markup(t[i]) {
            buf.push('\\');
        }
        buf.push(t[i]);
        assert(before + escaped_from(t@, i as int) =~= buf@ + escaped_from(t@, i + 1));
        i += 1;
    }
    assert(buf@ + Seq::<char>::empty() =~= buf@);
    string_of(&buf)
}

} // verus!
