//! Finding the session token in what the vault tool prints when it unlocks.

use vstd::prelude::*;
use vstd::string::*;

verus! {

#[verifier::external_type_specification]
#[verifier::external_body]
pub struct ExRegexError(regex::Error);

/// Whether the matcher, as it is built into the program, takes `pattern` as
/// a regular expression: whether `regex::Regex::new` answers with one.
pub uninterp spec fn regex_accepts(pattern: Seq<char>) -> bool;

/// What group `group` of the leftmost match of the regular expression
/// `pattern` in `haystack` holds, where the expression compiles. `None`
/// where nothing matches, or where the group took no part in the match.
pub uninterp spec fn regex_capture(pattern: Seq<char>, haystack: Seq<char>, group: nat) -> Option<Seq<char>>;

/// `regex::Regex::new`, then `Regex::captures`, `Captures::get` and
/// `Match::as_str` on what each gives: the text of one capture group of the
/// leftmost match, or that there is none. The error is that of `Regex::new`,
/// and comes exactly when it does not take the pattern.
#[verifier::external_body]
fn capture_group(pattern: &str, haystack: &str, group: usize) -> (found: Result<Option<String>, regex::Error>)
    ensures
        found is Err <==> !regex_accepts(pattern@),
        found matches Ok(Some(text)) ==> regex_capture(pattern@, haystack@, group as nat) == Some(text@),
        found matches Ok(None) ==> regex_capture(pattern@, haystack@, group as nat) is None,
{
    let expression = regex::Regex::new(pattern)?;
    Ok(expression.captures(haystack).and_then(|groups| groups.get(group)).map(|found| found.as_str().to_string()))
}

/// Why no session token came out of an unlock.
#[derive(Debug, Clone, Copy, PartialEq, Eq, Structural)]
pub enum TokenFault {
    /// The output holds no `export BW_SESSION="..."` assignment.
    Missing,
    /// The pattern for the assignment was not taken by the matcher.
    PatternRejected,
}

/// The pattern of the line that hands out the session token: the word
/// `export`, the variable, an opening double quote, and as the token
/// whatever follows up to the next double quote.
pub open spec fn session_pattern() -> Seq<char> {
    "export BW_SESSION=\"([^\"]+)"@
}

/// The token in an unlock's output, when it holds one.
pub open spec fn token_in(output: Seq<char>) -> Option<Seq<char>> {
    regex_capture(session_pattern(), output, 1)
}

/// What a search for the token comes to, given what the matcher answered.
pub open spec fn token_from_spec(found: Result<Option<String>, regex::Error>) -> Result<Seq<char>, TokenFault> {
    match found {
        Ok(Some(token)) => Ok(token@),
        Ok(None) => Err(TokenFault::Missing),
        Err(_) => Err(TokenFault::PatternRejected),
    }
}

/// Turns the matcher's answer into the token or the reason there is none.
pub fn token_from(found: Result<Option<String>, regex::Error>) -> (token: Result<String, TokenFault>)
    ensures
        match token {
            Ok(text) => token_from_spec(found) == Ok::<Seq<char>, TokenFault>(text@),
            Err(fault) => token_from_spec(found) == Err::<Seq<char>, TokenFault>(fault),
        },
{
    match found {
        Ok(Some(text)) => Ok(text),
        Ok(None) => Err(TokenFault::Missing),
        Err(_) => Err(TokenFault::PatternRejected),
    }
}

/// What the search for the session token in `output` comes to: the token
/// that the pattern captures there; that there is none; or, before either,
/// that the matcher does not take the pattern.
pub open spec fn session_token(output: Seq<char>) -> Result<Seq<char>, TokenFault> {
    if !regex_accepts(session_pattern()) {
        Err(TokenFault::PatternRejected)
    } else {
        match token_in(output) {
            Some(text) => Ok(text),
            None => Err(TokenFault::Missing),
        }
    }
}

/// Looks for the session token in the output of an unlock.
pub fn extract_session_token(output: &str) -> (token: Result<String, TokenFault>)
    ensures
        match token {
            Ok(text) => session_token(output@) == Ok::<Seq<char>, TokenFault>(text@),
            Err(fault) => session_token(output@) == Err::<Seq<char>, TokenFault>(fault),
        },
{
    token_from(capture_group("export BW_SESSION=\"([^\"]+)", output, 1))
}

} // verus!
