//! Lines of text.

use vstd::prelude::*;

verus! {

/// What the lines say.
pub open spec fn lines(lines: Seq<String>) -> Seq<Seq<char>> {
    lines.map_values(|line: String| line@)
}

/// There are as many lines as strings, and each line is what its string says.
pub proof fn law_lines_are_the_strings(strings: Seq<String>, i: int)
    ensures
        lines(strings).len() == strings.len(),
        0 <= i < strings.len() ==> lines(strings)[i] == strings[i]@,
{
}

/// What `{:?}` makes of a string: its characters, those that need it escaped, in double quotes.
pub uninterp spec fn debug_text(text: Seq<char>) -> Seq<char>;

/// `<str as std::fmt::Debug>::fmt` through `format!`: the text of `{:?}`, which is a function of
/// the string alone. How each character is escaped is left unsaid.
#[verifier::external_body]
pub(crate) fn debug_string(text: &str) -> (debug: String)
    ensures
        debug@ == debug_text(text@),
{
    format!("{:?}", text)
}

/// Puts the pieces one after another.
pub(crate) fn concat3(first: &str, second: &str, third: &str) -> (text: String)
    ensures
        text@ == first@ + second@ + third@,
{
    let mut text = first.to_owned();
    text.append(second);
    text.append(third);
    text
}

/// Puts the second piece behind the first.
pub(crate) fn concat2(first: &str, second: &str) -> (text: String)
    ensures
        text@ == first@ + second@,
{
    let mut text = first.to_owned();
    text.append(second);
    text
}

} // verus!
