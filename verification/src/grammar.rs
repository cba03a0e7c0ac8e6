//! The line grammar: which text counts as a reading, and which parts of it are
//! its fields.
//!
//! The grammar is written down as a regular expression and matched by the
//! `regex` crate. That crate is not verified: what this module says about it
//! is stated in the contracts of the items marked as trusted below, and
//! everything else is proved from those.

use crate::reading::{Fields, UDCO2S};
use vstd::prelude::*;

verus! {

/// The pattern of a reading: `CO2=`, digits, `,HUM=`, digits with a fraction,
/// `,TMP=`, digits with a fraction. It is anchored at the start of the text
/// and says nothing about what follows, so line terminators and any other
/// trailing bytes are ignored. Each of the three numbers is a capture group.
pub const LINE_PATTERN: &'static str = "^CO2=([0-9]+),HUM=([0-9]+\\.[0-9]+),TMP=([0-9]+\\.[0-9]+)";

/// Trusted: makes the type `regex::Regex` known to the verifier. Nothing about
/// its contents is visible; values of it are only passed on.
#[verifier::external_type_specification]
#[verifier::external_body]
pub struct ExRegex(regex::Regex);

/// Trusted: makes the type `regex::Error` known to the verifier, as an opaque
/// value.
#[verifier::external_type_specification]
#[verifier::external_body]
pub struct ExRegexError(regex::Error);

/// Trusted name for the outcome of `regex::Regex::new` on a pattern: the
/// compiled expression, or the error that says why there is none. Compiling
/// reads nothing but the pattern and checks it against limits that are fixed
/// when the crate is built, so one pattern always has the same outcome.
pub uninterp spec fn regex_compilation(pattern: Seq<char>) -> Result<regex::Regex, regex::Error>;

/// Trusted name for what `regex::Regex::captures` finds: `None` when the
/// expression does not match the text, otherwise one entry per capture group,
/// the whole match first, each holding the text the group matched or `None`
/// when the group took no part in the match. A search depends on nothing but
/// the compiled expression and the text.
pub uninterp spec fn regex_captures(re: regex::Regex, text: Seq<char>) -> Option<
    Seq<Option<Seq<char>>>,
>;

/// Trusted name for the text that the `Display` implementation of
/// `regex::Error` writes for an error. The text depends on nothing but the
/// error.
pub uninterp spec fn regex_error_text(error: regex::Error) -> Seq<char>;

/// Trusted: `regex::Regex::new` compiles a pattern. The contract equates the
/// outcome, success or failure, with `regex_compilation` of that pattern. It
/// does not say for which patterns there is a compiled expression.
pub assume_specification[ regex::Regex::new ](re: &str) -> (compiled: Result<
    regex::Regex,
    regex::Error,
>)
    ensures
        compiled == regex_compilation(re@),
;

/// Trusted: runs `regex::Regex::captures` on the text and copies the groups
/// out as owned strings, in the order in which `Captures::iter` yields them.
/// The contract equates the outcome with `regex_captures`.
#[verifier::external_body]
fn capture_groups(re: &regex::Regex, text: &str) -> (groups: Option<Vec<Option<String>>>)
    ensures
        group_texts(groups) == regex_captures(*re, text@),
{
    re.captures(text).map(
        |caps| caps.iter().map(|group| group.map(|found| found.as_str().to_owned())).collect(),
    )
}

/// Trusted: renders a `regex::Error` through its `Display` implementation.
/// The contract equates the text with `regex_error_text`.
#[verifier::external_body]
fn error_message(error: &regex::Error) -> (message: String)
    ensures
        message@ == regex_error_text(*error),
{
    error.to_string()
}

/// The mathematical content of one capture group.
pub open spec fn group_text(group: Option<String>) -> Option<Seq<char>> {
    match group {
        Some(text) => Some(text@),
        None => None,
    }
}

/// The mathematical content of the groups of a search.
pub open spec fn group_texts(groups: Option<Vec<Option<String>>>) -> Option<
    Seq<Option<Seq<char>>>,
> {
    match groups {
        Some(list) => Some(list@.map_values(|group: Option<String>| group_text(group))),
        None => None,
    }
}

/// The fields that the groups of a search stand for. A search of the line
/// pattern yields four groups: the whole match and the three numbers. Any
/// other shape carries no reading.
pub open spec fn fields_of(groups: Option<Seq<Option<Seq<char>>>>) -> Option<Fields> {
    match groups {
        Some(list) => if list.len() == 4 && list[1] is Some && list[2] is Some
            && list[3] is Some {
            Some(Fields { co2: list[1]->0, hum: list[2]->0, tmp: list[3]->0 })
        } else {
            None
        },
        None => None,
    }
}

/// The mathematical content of an optional reading.
pub open spec fn fields_view(reading: Option<UDCO2S>) -> Option<Fields> {
    match reading {
        Some(r) => Some(r@),
        None => None,
    }
}

/// Turns the groups of a search into a reading: the CO2, humidity and
/// temperature text are the groups one, two and three.
pub fn reading_from_groups(groups: &Option<Vec<Option<String>>>) -> (reading: Option<UDCO2S>)
    ensures
        fields_view(reading) == fields_of(group_texts(*groups)),
{
    match groups {
        Some(list) => {
            if list.len() == 4 {
                match (&list[1], &list[2], &list[3]) {
                    (Some(co2), Some(hum), Some(tmp)) => Some(
                        UDCO2S::new(co2.as_str(), hum.as_str(), tmp.as_str()),
                    ),
                    _ => None,
                }
            } else {
                None
            }
        },
        None => None,
    }
}

/// The pattern could not be compiled.
#[derive(Debug, PartialEq, Eq)]
pub struct GrammarError {
    /// The matcher's own description of what is wrong.
    pub message: String,
}

/// The compiled line grammar.
pub struct LineGrammar {
    re: regex::Regex,
}

impl LineGrammar {
    /// The compiled expression that does the matching.
    pub closed spec fn matcher(self) -> regex::Regex {
        self.re
    }

    /// Whether this is the grammar of the sensor's lines, compiled from
    /// `LINE_PATTERN`.
    pub open spec fn is_standard(self) -> bool {
        regex_compilation(LINE_PATTERN@) == Ok::<regex::Regex, regex::Error>(self.matcher())
    }

    /// The fields that the grammar finds at the start of a text, if it matches.
    pub open spec fn fields(self, text: Seq<char>) -> Option<Fields> {
        fields_of(regex_captures(self.matcher(), text))
    }

    /// Compiles the grammar of the sensor's lines. There is a grammar exactly
    /// when `LINE_PATTERN` compiles; it then matches with the compiled
    /// pattern. Otherwise the error carries the matcher's description of what
    /// is wrong with the pattern.
    pub fn new() -> (grammar: Result<LineGrammar, GrammarError>)
        ensures
            grammar is Ok <==> regex_compilation(LINE_PATTERN@) is Ok,
            grammar matches Ok(g) ==> g.is_standard(),
            grammar matches Err(error) ==> error.message@ == regex_error_text(
                regex_compilation(LINE_PATTERN@)->Err_0,
            ),
    {
        LineGrammar::from_compiled(regex::Regex::new(LINE_PATTERN))
    }

    /// Wraps the outcome of a compilation: a compiled expression becomes a
    /// grammar that matches with it, a failure is reported with its message.
    pub fn from_compiled(compiled: Result<regex::Regex, regex::Error>) -> (grammar: Result<
        LineGrammar,
        GrammarError,
    >)
        ensures
            grammar is Ok <==> compiled is Ok,
            grammar matches Ok(g) ==> g.matcher() == compiled->Ok_0,
            grammar matches Err(error) ==> error.message@ == regex_error_text(compiled->Err_0),
    {
        match compiled {
            Ok(re) => Ok(LineGrammar { re }),
            Err(error) => Err(GrammarError { message: error_message(&error) }),
        }
    }

    /// Matches a text against the grammar and extracts the reading from the
    /// groups of the match. The fields are the captured text, unchanged.
    /// Where the expression matches is the matcher's business: `LINE_PATTERN`
    /// anchors the match at the start of the text and lets it end before the
    /// text does.
    pub fn captures(&self, text: &str) -> (reading: Option<UDCO2S>)
        ensures
            fields_view(reading) == self.fields(text@),
    {
        let groups = capture_groups(&self.re, text);
        reading_from_groups(&groups)
    }
}

} // verus!
