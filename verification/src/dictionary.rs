//! The dictionary handler: from the entries that the lookup tool found to the
//! text that is shown.

use vstd::prelude::*;
use crate::failure::Failure;

verus! {

/// One entry of the lookup tool's answer.
#[derive(Debug)]
pub struct Definition {
    /// The dictionary that the entry comes from.
    pub dict: String,
    /// The word as the dictionary spells it.
    pub word: String,
    /// The text of the entry.
    pub definition: String,
}

/// What is shown when the lookup tool found nothing.
pub open spec fn no_result() -> Seq<char> {
    "No result :("@
}

/// The text to show for `entries`: the first entry's, or the fallback where
/// there is none.
pub open spec fn body_of(entries: Seq<Definition>) -> Seq<char> {
    if entries.len() == 0 {
        no_result()
    } else {
        entries[0].definition@
    }
}

/// Picks the text to show: the first entry's definition, or the fallback text
/// where the lookup tool found nothing.
pub fn definition_body(entries: &Vec<Definition>) -> (body: String)
    ensures
        body@ == body_of(entries@),
{
    if entries.len() == 0 {
        "No result :(".to_owned()
    } else {
        entries[0].definition.clone()
    }
}

/// The pattern of a list marker: a digit, or one of `(a)`, `(b)`, `(c)`, with
/// one white space character before it and one after.
pub open spec fn marker_pattern() -> Seq<char> {
    "\\s(\\d|\\((a|b|c)\\))\\s"@
}

/// `regex::Error`, the reason why `regex` did not accept a pattern. Nothing
/// is known of what it holds.
#[verifier::external_type_specification]
#[verifier::external_body]
pub struct ExRegexError(regex::Error);

/// What `regex::Regex::replace_all` returns for the regular expression
/// `pattern`, the text `text` and the replacement `with`; `None` where
/// `regex::Regex::new` does not accept `pattern`.
pub uninterp spec fn regex_replaced(
    pattern: Seq<char>,
    text: Seq<char>,
    with: Seq<char>,
) -> Option<Seq<char>>;

/// Compiles `pattern` with `regex::Regex::new` and replaces each of its
/// matches in `text` with `regex::Regex::replace_all`. It is taken on trust
/// that what comes back depends on the three arguments alone, and that it is
/// an error only where the pattern is not accepted.
#[verifier::external_body]
fn replace_all(pattern: &str, text: &str, with: &str) -> (r: Result<String, regex::Error>)
    ensures
        r matches Ok(s) ==> regex_replaced(pattern@, text@, with@) == Some(s@),
        r is Err ==> regex_replaced(pattern@, text@, with@) is None,
{
    let re = regex::Regex::new(pattern)?;
    Ok(re.replace_all(text, with).into_owned())
}

/// Replaces each match of the regular expression `pattern` in `text` by
/// `with`. A pattern that is not accepted is a failure.
pub fn replace_matches(pattern: &str, text: &str, with: &str) -> (r: Result<String, Failure>)
    ensures
        match regex_replaced(pattern@, text@, with@) {
            Some(t) => r matches Ok(s) && s@ == t,
            None => r == Err::<String, Failure>(Failure::BadPattern),
        },
{
    match replace_all(pattern, text, with) {
        Ok(replaced) => Ok(replaced),
        Err(_) => Err(Failure::BadPattern),
    }
}

/// The text to show for `entries`, with a line feed in place of each list
/// marker; `None` where the marker pattern is not accepted.
pub open spec fn text_of(entries: Seq<Definition>) -> Option<Seq<char>> {
    regex_replaced(marker_pattern(), body_of(entries), "\n"@)
}

/// The text that the dictionary handler shows: the first entry's definition,
/// or the fallback text, with each list marker replaced by a line feed.
pub fn definition_text(entries: &Vec<Definition>) -> (r: Result<String, Failure>)
    ensures
        match text_of(entries@) {
            Some(t) => r matches Ok(s) && s@ == t,
            None => r == Err::<String, Failure>(Failure::BadPattern),
        },
{
    let body = definition_body(entries);
    replace_matches("\\s(\\d|\\((a|b|c)\\))\\s", body.as_str(), "\n")
}

} // verus!
