//! Escaping of text for the MarkdownV2 dialect of the message channel.

use vstd::prelude::*;
use vstd::string::*;

verus! {

/// The characters that MarkdownV2 gives a meaning to.
pub open spec fn is_special(c: char) -> bool {
    c == '_' || c == '*' || c == '[' || c == ']' || c == '(' || c == ')' || c == '~' || c == '`'
        || c == '>' || c == '#' || c == '+' || c == '-' || c == '=' || c == '|' || c == '{' || c
        == '}' || c == '.' || c == '!'
}

/// One character as it stands in escaped text: behind a backslash when it
/// is special, alone when it is not.
pub open spec fn escaped_char(c: char) -> Seq<char> {
    if is_special(c) {
        seq!['\\', c]
    } else {
        seq![c]
    }
}

/// A text with each of its characters escaped, in order.
pub open spec fn escaped(s: Seq<char>) -> Seq<char>
    decreases s.len(),
{
    if s.len() == 0 {
        Seq::empty()
    } else {
        escaped(s.drop_last()) + escaped_char(s.last())
    }
}

/// Whether MarkdownV2 gives a meaning to the character.
pub fn is_special_char(c: char) -> (special: bool)
    ensures
        special == is_special(c),
{
    c == '_' || c == '*' || c == '[' || c == ']' || c == '(' || c == ')' || c == '~' || c == '`'
        || c == '>' || c == '#' || c == '+' || c == '-' || c == '=' || c == '|' || c == '{' || c
        == '}' || c == '.' || c == '!'
}

/// Puts a backslash before every special character of the text.
pub fn escape_markdown_v2(text: &str) -> (result: String)
    ensures
        result@ == escaped(text@),
{
    let mut result = String::new();
    for ch in it: text.chars()
        invariant
            it.seq() == text@,
            result@ == escaped(text@.take(it.index() as int)),
    {
        let ghost before = text@.take(it.index() as int);
        let ghost upto = text@.take(it.index() + 1);
        assert(upto.drop_last() =~= before);
        assert(upto.last() == ch);
        if is_special_char(ch) {
            result.push('\\');
        }
        result.push(ch);
        assert(result@ =~= escaped(before) + escaped_char(ch));
    }
    assert(text@.take(text@.len() as int) =~= text@);
    result
}

/// Escaping works piece by piece: the escaped form of two texts in a row is
/// the escaped forms of the two in a row.
pub proof fn law_escape_is_piecewise(a: Seq<char>, b: Seq<char>)
    ensures
        escaped(a + b) == escaped(a) + escaped(b),
    decreases b.len(),
{
    if b.len() == 0 {
        assert(a + b =~= a);
        assert(escaped(a) + escaped(b) =~= escaped(a));
    } else {
        law_escape_is_piecewise(a, b.drop_last());
        assert((a + b).drop_last() =~= a + b.drop_last());
        assert((a + b).last() == b.last());
        assert(escaped(a + b) =~= escaped(a) + escaped(b));
    }
}

} // verus!
