use vstd::prelude::*;
use vstd::string::*;

verus! {

/// The kinds of status line an agent prints.
#[derive(Debug, Clone, Copy, PartialEq, Eq, Structural)]
pub enum PrintCommand {
    AICall,
    UnitTest,
    Issue,
}

/// What str::trim returns on `s`.
pub uninterp spec fn trimmed_of(s: Seq<char>) -> Seq<char>;

/// What str::to_lowercase returns on `s`.
pub uninterp spec fn lowercase_of(s: Seq<char>) -> Seq<char>;

/// Relies on str::trim: the text without leading and trailing whitespace, which
/// depends on the text alone.
#[verifier::external_body]
fn trim_text(s: &str) -> (r: String)
    ensures
        r@ == trimmed_of(s@),
{
    s.trim().to_string()
}

/// Relies on str::to_lowercase: the lowercase form of the text, which depends on the
/// text alone.
#[verifier::external_body]
fn lowercase_text(s: &str) -> (r: String)
    ensures
        r@ == lowercase_of(s@),
{
    s.to_lowercase()
}

/// What a normalised answer to the safety question means: `Some(true)` to go on,
/// `Some(false)` to stop, `None` for an answer that is not understood.
pub open spec fn answer_meaning(answer: Seq<char>) -> Option<bool> {
    if answer == "1"@ || answer == "ok"@ || answer == "y"@ {
        Some(true)
    } else if answer == "2"@ || answer == "no"@ || answer == "n"@ {
        Some(false)
    } else {
        None
    }
}

/// Reads an answer that is already trimmed and in lower case.
pub fn classify_answer(answer: &str) -> (r: Option<bool>)
    ensures
        r == answer_meaning(answer@),
{
    let a = String::from_str(answer);
    if a == String::from_str("1") || a == String::from_str("ok") || a == String::from_str("y") {
        Some(true)
    } else if a == String::from_str("2") || a == String::from_str("no") || a == String::from_str(
        "n",
    ) {
        Some(false)
    } else {
        None
    }
}

/// Reads a raw line typed in answer to the safety question, ignoring surrounding
/// whitespace and case.
pub fn confirm_answer(raw: &str) -> (r: Option<bool>)
    ensures
        r == answer_meaning(lowercase_of(trimmed_of(raw@))),
{
    let trimmed = trim_text(raw);
    let lower = lowercase_text(trimmed.as_str());
    classify_answer(lower.as_str())
}

/// How many times one request to the model is sent before its failure is fatal.
pub const MAX_REQUEST_ATTEMPTS: u32 = 2;

/// Whether a request to the model that has failed `failed_attempts` times is sent again.
pub fn retry_request(failed_attempts: u32) -> (r: bool)
    ensures
        r == (failed_attempts < MAX_REQUEST_ATTEMPTS),
{
    failed_attempts < MAX_REQUEST_ATTEMPTS
}

} // verus!
