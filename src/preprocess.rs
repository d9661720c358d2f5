use vstd::prelude::*;
use crate::bits::{mode_text, BitsMode};
use crate::text::{contains_seq, contains_str, occurs_at};

verus! {

/// `[bits`: the opening of a word-size directive.
pub open spec fn bracket_marker() -> Seq<char> {
    seq!['[', 'b', 'i', 't', 's']
}

/// `bits ` followed by a space: a directive written without brackets.
pub open spec fn bare_marker() -> Seq<char> {
    seq!['b', 'i', 't', 's', ' ']
}

/// The text already declares a word size somewhere, by plain substring match.
pub open spec fn has_directive(text: Seq<char>) -> bool {
    contains_seq(text, bracket_marker()) || contains_seq(text, bare_marker())
}

/// The line `[bits N]` followed by a newline.
pub open spec fn directive_line(m: BitsMode) -> Seq<char> {
    seq!['[', 'b', 'i', 't', 's', ' '] + mode_text(m) + seq![']', '\n']
}

/// The source text after preprocessing: unchanged when it declares a word
/// size, else prefixed with the directive line.
pub open spec fn preprocessed(text: Seq<char>, m: BitsMode) -> Seq<char> {
    if has_directive(text) {
        text
    } else {
        directive_line(m) + text
    }
}

/// Whether the text holds `[bits` or `bits ` anywhere.
pub fn has_bits_directive(text: &str) -> (r: bool)
    ensures
        r == has_directive(text@),
{
    proof {
        reveal_strlit("[bits");
        reveal_strlit("bits ");
    }
    let a = contains_str(text, "[bits");
    assert("[bits"@ =~= bracket_marker());
    if a {
        return true;
    }
    assert("bits "@ =~= bare_marker());
    contains_str(text, "bits ")
}

/// The directive line for a mode, newline included.
pub fn directive_for(mode: BitsMode) -> (r: String)
    ensures
        r@ == directive_line(mode),
{
    proof {
        reveal_strlit("[bits ");
        reveal_strlit("]\n");
    }
    let mut r = String::from_str("[bits ");
    r.append(mode.bits_mode_str());
    r.append("]\n");
    assert(r@ =~= directive_line(mode));
    r
}

/// The new content of a source file, or `None` when it must stay as it is
/// because it already declares a word size.
pub fn insert_bits(text: &str, mode: BitsMode) -> (r: Option<String>)
    ensures
        r is None <==> has_directive(text@),
        r matches Some(t) ==> t@ == directive_line(mode) + text@,
        r matches Some(t) ==> t@ == preprocessed(text@, mode),
{
    if has_bits_directive(text) {
        None
    } else {
        let mut r = directive_for(mode);
        r.append(text);
        Some(r)
    }
}

/// Preprocessing is idempotent: a second pass with the same mode leaves the
/// text of the first pass unchanged, so the directive is inserted once only.
pub proof fn lemma_preprocess_idempotent(text: Seq<char>, m: BitsMode)
    ensures
        preprocessed(preprocessed(text, m), m) == preprocessed(text, m),
        has_directive(preprocessed(text, m)),
{
    if !has_directive(text) {
        let t = directive_line(m) + text;
        assert(t.subrange(0, 5) =~= bracket_marker());
        assert(occurs_at(t, bracket_marker(), 0));
    }
}

/// A text that holds `[bits` anywhere is left exactly as it is.
pub proof fn lemma_existing_directive_kept(text: Seq<char>, m: BitsMode)
    requires
        contains_seq(text, bracket_marker()),
    ensures
        preprocessed(text, m) == text,
{
}

} // verus!
