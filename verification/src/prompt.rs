//! Asking for a value.
use crate::text::{optional_str, trim, trimmed};
use vstd::prelude::*;

verus! {

/// What a question looks like: its label, and the value that a blank answer stands for.
pub open spec fn prompt_view(label: Seq<char>, default: Option<Seq<char>>) -> Seq<char> {
    match default {
        Some(value) => label + " ["@ + value + "]: "@,
        None => label + ": "@,
    }
}

/// What an answer means: its text without the white space around it, or the default where
/// nothing is left.
pub open spec fn answer_view(default: Option<Seq<char>>, line: Seq<char>) -> Option<Seq<char>> {
    if trimmed(line).len() == 0 {
        default
    } else {
        Some(trimmed(line))
    }
}

/// A question was left open; its label.
#[derive(Debug, PartialEq, Eq)]
pub struct PromptError {
    pub label: String,
}

/// What the user is told of a question that was left open.
pub open spec fn required_text(label: Seq<char>) -> Seq<char> {
    label + " is required"@
}

impl PromptError {
    /// What the user is told.
    pub fn message(&self) -> (r: String)
        ensures
            r@ == required_text(self.label@),
    {
        self.label.clone().concat(" is required")
    }
}

/// What a question looks like.
pub fn prompt_text(label: &str, default: Option<&str>) -> (r: String)
    ensures
        r@ == prompt_view(label@, optional_str(default)),
{
    match default {
        Some(value) => label.to_owned().concat(" [").concat(value).concat("]: "),
        None => label.to_owned().concat(": "),
    }
}

/// What an answer means.
pub fn prompt_answer(label: &str, default: Option<&str>, line: &str) -> (r: Result<
    String,
    PromptError,
>)
    ensures
        match r {
            Ok(value) => answer_view(optional_str(default), line@) == Some(value@),
            Err(error) => error.label@ == label@ && answer_view(optional_str(default), line@)
                is None,
        },
{
    let value = trim(line);
    if value.is_empty() {
        match default {
            Some(value) => Ok(value.to_owned()),
            None => Err(PromptError { label: label.to_owned() }),
        }
    } else {
        Ok(value.to_owned())
    }
}

// ---- laws ----

/// A question shows its label, and the value that a blank answer stands for.
pub proof fn law_question_shows_its_default(label: &str, value: &str, with: String, without: String)
    requires
        call_ensures(prompt_text, (label, Some(value)), with),
        call_ensures(prompt_text, (label, None), without),
    ensures
        with@ == label@ + " ["@ + value@ + "]: "@,
        without@ == label@ + ": "@,
{
}

/// What was typed counts, without the white space around it and whatever the default; a blank
/// answer stands for the default, and is an error where there is none.
pub proof fn law_typed_answer_counts(
    label: &str,
    default: Option<&str>,
    line: &str,
    r: Result<String, PromptError>,
)
    requires
        call_ensures(prompt_answer, (label, default, line), r),
    ensures
        trimmed(line@).len() > 0 ==> r is Ok && (r->Ok_0)@ == trimmed(line@),
        trimmed(line@).len() == 0 && default is Some ==> r is Ok && (r->Ok_0)@ == (default->0)@,
        trimmed(line@).len() == 0 && default is None ==> r is Err && r->Err_0.label@ == label@,
{
}

/// The user is told which question was left open.
pub proof fn law_open_question_is_told(error: &PromptError, r: String)
    requires
        call_ensures(PromptError::message, (error,), r),
    ensures
        r@ == error.label@ + " is required"@,
{
}

} // verus!
