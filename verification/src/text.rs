//! Small helpers on strings that the rest of the library shares.

use vstd::prelude::*;
use vstd::string::*;

verus! {

/// What `str::trim` returns for a text: the text without its leading and
/// trailing Unicode whitespace.
pub uninterp spec fn trimmed(s: Seq<char>) -> Seq<char>;

/// `str::trim` is a function of the text alone; its result is named
/// [`trimmed`].
pub assume_specification[ str::trim ](s: &str) -> (r: &str)
    ensures
        r@ == trimmed(s@),
;

/// `String::push` appends one character.
pub assume_specification[ String::push ](s: &mut String, ch: char)
    ensures
        final(s)@ == old(s)@.push(ch),
;

/// The characters of an optional string.
pub open spec fn opt_view(o: Option<String>) -> Option<Seq<char>> {
    match o {
        Some(s) => Some(s@),
        None => None,
    }
}

/// Whether two texts hold the same characters.
pub fn same_text(a: &str, b: &str) -> (same: bool)
    ensures
        same == (a@ == b@),
{
    let left = String::from_str(a);
    let right = String::from_str(b);
    left == right
}

/// A copy of an optional string.
pub fn copy_opt(o: &Option<String>) -> (r: Option<String>)
    ensures
        opt_view(r) == opt_view(*o),
{
    match o {
        Some(s) => Some(s.clone()),
        None => None,
    }
}

/// The concatenation of two texts.
pub fn join(a: &str, b: &str) -> (r: String)
    ensures
        r@ == a@ + b@,
{
    let mut out = String::from_str(a);
    out.append(b);
    out
}

/// A text with every occurrence of a pattern taken out, the occurrences
/// found from the left and not overlapping. An empty pattern takes nothing
/// out.
pub open spec fn without(s: Seq<char>, pattern: Seq<char>) -> Seq<char>
    decreases s.len(),
{
    if pattern.len() == 0 || s.len() < pattern.len() {
        s
    } else if pattern.is_prefix_of(s) {
        without(s.skip(pattern.len() as int), pattern)
    } else {
        seq![s[0]] + without(s.skip(1), pattern)
    }
}

/// `str::starts_with` with a string as the pattern: whether the text begins
/// with the pattern.
#[verifier::external_body]
pub(crate) fn has_prefix(s: &str, prefix: &str) -> (r: bool)
    ensures
        r == prefix@.is_prefix_of(s@),
{
    s.starts_with(prefix)
}

/// `str::replace` with a string as the pattern and the empty string in its
/// place: std replaces all matches of the pattern, which it finds from the
/// left, each search going on behind the match before.
#[verifier::external_body]
pub(crate) fn remove_all(s: &str, pattern: &str) -> (r: String)
    ensures
        r@ == without(s@, pattern@),
{
    s.replace(pattern, "")
}

/// Nothing is taken out of a text in which the first character of the
/// pattern does not occur.
pub proof fn lemma_without_absent(s: Seq<char>, pattern: Seq<char>)
    requires
        pattern.len() > 0,
        forall|i: int| 0 <= i < s.len() ==> s[i] != pattern[0],
    ensures
        without(s, pattern) == s,
    decreases s.len(),
{
    if s.len() >= pattern.len() {
        assert(!pattern.is_prefix_of(s)) by {
            if pattern.is_prefix_of(s) {
                assert(s.subrange(0, pattern.len() as int)[0] == s[0]);
            }
        }
        let rest = s.skip(1);
        assert forall|i: int| 0 <= i < rest.len() implies rest[i] != pattern[0] by {
            assert(rest[i] == s[i + 1]);
        }
        lemma_without_absent(rest, pattern);
        assert(seq![s[0]] + rest =~= s);
    }
}

/// A value behind a prefix comes back whole when the prefix is taken out,
/// provided the first character of the prefix does not occur in the value.
pub proof fn lemma_without_prefix(prefix: Seq<char>, value: Seq<char>)
    requires
        prefix.len() > 0,
        forall|i: int| 0 <= i < value.len() ==> value[i] != prefix[0],
    ensures
        prefix.is_prefix_of(prefix + value),
        without(prefix + value, prefix) == value,
{
    let data = prefix + value;
    assert(data.subrange(0, prefix.len() as int) =~= prefix);
    assert(data.skip(prefix.len() as int) =~= value);
    lemma_without_absent(value, prefix);
}

} // verus!
