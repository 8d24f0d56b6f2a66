//! What comes back from the remote service, and the result of the tool call
//! that it is turned into.
//!
//! The host sends the one request of a call and hands back an [`Outcome`].
//! Whatever it is, and whichever tool was called, the call ends with it: a
//! [`ToolResult`] is all that follows, never another request.

use crate::text;
use vstd::prelude::*;

verus! {

/// `serde_json::Value`: a JSON document in the form `serde_json` keeps it. The
/// library hands it from the reader to the writer and never looks inside.
#[verifier::external_type_specification]
#[verifier::external_body]
pub struct ExValue(serde_json::Value);

/// What `serde_json::from_slice` makes of `body`, read as one JSON document:
/// the document, or what it says is wrong with the bytes.
pub uninterp spec fn json_decoded(body: Seq<u8>) -> Result<serde_json::Value, Seq<char>>;

/// What `serde_json::to_string_pretty` writes for `doc`, or what it says is
/// wrong with it.
pub uninterp spec fn json_pretty(doc: serde_json::Value) -> Result<Seq<char>, Seq<char>>;

/// Calls `serde_json::from_slice` to read `body` as one JSON document. An
/// error comes back as the text it displays as.
#[verifier::external_body]
fn decode(body: &[u8]) -> (decoded: Result<serde_json::Value, String>)
    ensures
        match decoded {
            Ok(doc) => json_decoded(body@) == Ok::<serde_json::Value, Seq<char>>(doc),
            Err(why) => json_decoded(body@) == Err::<serde_json::Value, Seq<char>>(why@),
        },
{
    match serde_json::from_slice::<serde_json::Value>(body) {
        Ok(doc) => Ok(doc),
        Err(err) => Err(err.to_string()),
    }
}

/// Calls `serde_json::to_string_pretty` to write `doc` over several lines,
/// indented by two spaces. An error comes back as the text it displays as.
#[verifier::external_body]
fn render(doc: &serde_json::Value) -> (rendered: Result<String, String>)
    ensures
        match rendered {
            Ok(text) => json_pretty(*doc) == Ok::<Seq<char>, Seq<char>>(text@),
            Err(why) => json_pretty(*doc) == Err::<Seq<char>, Seq<char>>(why@),
        },
{
    match serde_json::to_string_pretty(doc) {
        Ok(text) => Ok(text),
        Err(err) => Err(err.to_string()),
    }
}

/// What came of sending a request.
#[derive(Debug, PartialEq, Eq)]
pub enum Outcome {
    /// The request could not be sent, or no answer could be read. The text
    /// says what went wrong.
    Failed(String),
    /// The remote service answered, with this status and these bytes as the
    /// answer's body.
    Answered { status: u16, body: Vec<u8> },
}

/// The mathematical value of an [`Outcome`].
pub enum OutcomeView {
    Failed(Seq<char>),
    Answered { status: u16, body: Seq<u8> },
}

impl View for Outcome {
    type V = OutcomeView;

    open spec fn view(&self) -> OutcomeView {
        match self {
            Outcome::Failed(why) => OutcomeView::Failed(why@),
            Outcome::Answered { status, body } => OutcomeView::Answered {
                status: *status,
                body: body@,
            },
        }
    }
}

/// The result of a tool call: a text either way.
#[derive(Debug, PartialEq, Eq)]
pub enum ToolResult {
    /// The call went through. The text is what the remote service answered.
    Success(String),
    /// The call failed. The text is one line that says why.
    Error(String),
}

/// The mathematical value of a [`ToolResult`].
pub enum ToolResultView {
    Success(Seq<char>),
    Error(Seq<char>),
}

impl View for ToolResult {
    type V = ToolResultView;

    open spec fn view(&self) -> ToolResultView {
        match self {
            ToolResult::Success(text) => ToolResultView::Success(text@),
            ToolResult::Error(text) => ToolResultView::Error(text@),
        }
    }
}

/// The result of a call that failed because of `details`.
pub open spec fn failure(details: Seq<char>) -> ToolResultView {
    ToolResultView::Error(text::WORKFLOW_ERROR@ + details)
}

/// The result of a call whose answer was written anew as `rendered`.
pub open spec fn reported(rendered: Result<Seq<char>, Seq<char>>) -> ToolResultView {
    match rendered {
        Ok(text) => ToolResultView::Success(text),
        Err(why) => failure(why),
    }
}

/// The body of an answer written anew: read as one JSON document and
/// written over several lines, or what is wrong with it.
pub open spec fn reformatted(body: Seq<u8>) -> Result<Seq<char>, Seq<char>> {
    match json_decoded(body) {
        Ok(doc) => json_pretty(doc),
        Err(why) => Err(why),
    }
}

/// The figure that stands for `digit`, a number below ten.
pub open spec fn figure(digit: nat) -> Seq<char> {
    if digit == 0 {
        "0"@
    } else if digit == 1 {
        "1"@
    } else if digit == 2 {
        "2"@
    } else if digit == 3 {
        "3"@
    } else if digit == 4 {
        "4"@
    } else if digit == 5 {
        "5"@
    } else if digit == 6 {
        "6"@
    } else if digit == 7 {
        "7"@
    } else if digit == 8 {
        "8"@
    } else {
        "9"@
    }
}

/// A number written in decimal figures, without leading zeros.
pub open spec fn decimal(number: nat) -> Seq<char>
    decreases number,
{
    if number < 10 {
        figure(number)
    } else {
        decimal(number / 10) + figure(number % 10)
    }
}

/// Whether `status` says that the remote service did what it was asked: the
/// statuses from 200 to 299.
pub open spec fn fulfilled(status: u16) -> bool {
    200 <= status <= 299
}

/// The result of a call that the remote service answered with a status
/// that does not say it did what it was asked.
pub open spec fn turned_down(status: u16) -> ToolResultView {
    failure(text::HTTP_STATUS@ + decimal(status as nat))
}

/// What a call ends with after `outcome`. A failure to send is reported as
/// it is. An answer whose status is not one from 200 to 299 is reported as
/// a failure that names the status. Any other answer is handed on, written
/// anew, and reported as a failure where it is no JSON.
pub open spec fn concluded(outcome: OutcomeView) -> ToolResultView {
    match outcome {
        OutcomeView::Failed(why) => failure(why),
        OutcomeView::Answered { status, body } => if fulfilled(status) {
            reported(reformatted(body))
        } else {
            turned_down(status)
        },
    }
}

/// The value of a rendering.
pub open spec fn rendering_view(rendered: Result<String, String>) -> Result<Seq<char>, Seq<char>> {
    match rendered {
        Ok(text) => Ok(text@),
        Err(why) => Err(why@),
    }
}

impl ToolResult {
    /// The result of a call that failed: the line `Workflow error: `
    /// followed by `details`.
    pub fn failure(details: &str) -> (result: ToolResult)
        ensures
            result@ == failure(details@),
    {
        let mut line = text::WORKFLOW_ERROR.to_string();
        line.append(details);
        ToolResult::Error(line)
    }

    /// The result of a call whose answer was written anew: the text where
    /// that went well, a failure where it did not.
    pub fn of_rendering(rendered: Result<String, String>) -> (result: ToolResult)
        ensures
            result@ == reported(rendering_view(rendered)),
    {
        match rendered {
            Ok(text) => ToolResult::Success(text),
            Err(why) => ToolResult::failure(why.as_str()),
        }
    }

    /// Whether the call failed.
    pub fn is_error(&self) -> (failed: bool)
        ensures
            failed == (self@ is Error),
    {
        match self {
            ToolResult::Success(_) => false,
            ToolResult::Error(_) => true,
        }
    }

    /// The text of the result.
    pub fn text(&self) -> (text: &str)
        ensures
            text@ == match self@ {
                ToolResultView::Success(text) => text,
                ToolResultView::Error(text) => text,
            },
    {
        match self {
            ToolResult::Success(text) => text.as_str(),
            ToolResult::Error(text) => text.as_str(),
        }
    }
}

/// Reads `body` as one JSON document and writes it anew, over several
/// lines.
pub fn reformat(body: &[u8]) -> (rendered: Result<String, String>)
    ensures
        rendering_view(rendered) == reformatted(body@),
{
    match decode(body) {
        Ok(doc) => render(&doc),
        Err(why) => Err(why),
    }
}

/// Writes the figure that stands for `digit`.
fn write_figure(digit: u16) -> (written: &'static str)
    requires
        digit < 10,
    ensures
        written@ == figure(digit as nat),
{
    if digit == 0 {
        "0"
    } else if digit == 1 {
        "1"
    } else if digit == 2 {
        "2"
    } else if digit == 3 {
        "3"
    } else if digit == 4 {
        "4"
    } else if digit == 5 {
        "5"
    } else if digit == 6 {
        "6"
    } else if digit == 7 {
        "7"
    } else if digit == 8 {
        "8"
    } else {
        "9"
    }
}

/// Writes `number` in decimal figures.
pub fn write_decimal(number: u16) -> (written: String)
    ensures
        written@ == decimal(number as nat),
    decreases number,
{
    if number < 10 {
        write_figure(number).to_string()
    } else {
        let mut written = write_decimal(number / 10);
        written.append(write_figure(number % 10));
        written
    }
}

/// Ends a call with what came of sending its request.
pub fn conclude(outcome: Outcome) -> (result: ToolResult)
    ensures
        result@ == concluded(outcome@),
        outcome matches Outcome::Failed(why) ==> result@ == failure(why@),
        outcome matches Outcome::Answered { status, .. } ==> (!fulfilled(status) ==> result@
            == turned_down(status)),
{
    match outcome {
        Outcome::Failed(why) => ToolResult::failure(why.as_str()),
        Outcome::Answered { status, body } => {
            if 200 <= status && status <= 299 {
                ToolResult::of_rendering(reformat(body.as_slice()))
            } else {
                let mut details = text::HTTP_STATUS.to_string();
                details.append(write_decimal(status).as_str());
                ToolResult::failure(details.as_str())
            }
        },
    }
}

} // verus!
