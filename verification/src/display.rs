//! How a status and a difficulty are worded on the screen.

use crate::common::{Difficulty, StatusModel, TestCaseStatus};
use vstd::prelude::*;
use vstd::string::*;

verus! {

/// The colour that a text is shown in.
#[derive(Debug, Clone, Copy, PartialEq, Eq, Structural)]
pub enum Tone {
    Plain,
    Green,
    Red,
    Yellow,
    LightYellow,
    Gray,
}

/// A text with its colour.
#[derive(Debug, PartialEq, Eq)]
pub struct Styled {
    pub text: String,
    pub tone: Tone,
}

/// What a `Styled` is.
pub ghost struct StyledModel {
    pub text: Seq<char>,
    pub tone: Tone,
}

impl View for Styled {
    type V = StyledModel;

    open spec fn view(&self) -> StyledModel {
        StyledModel { text: self.text@, tone: self.tone }
    }
}

/// The views of a sequence of styled texts, in order.
pub open spec fn lines_view(lines: Seq<Styled>) -> Seq<StyledModel> {
    Seq::new(lines.len(), |i: int| lines[i]@)
}

/// A text in the plain colour.
pub open spec fn plain(text: Seq<char>) -> StyledModel {
    StyledModel { text, tone: Tone::Plain }
}

impl StatusModel {
    /// The short wording of a status.
    pub open spec fn span(self) -> StyledModel {
        match self {
            StatusModel::Pass { .. } => StyledModel { text: "🗹 Passed"@, tone: Tone::Green },
            StatusModel::Fail { .. } => StyledModel { text: "🗷 Failed"@, tone: Tone::Red },
            StatusModel::Error { .. } => StyledModel { text: "‼ Error"@, tone: Tone::Red },
            StatusModel::Cancelled => StyledModel { text: "⚠ Cancelled"@, tone: Tone::Yellow },
            StatusModel::Running => StyledModel { text: "⌛ Running"@, tone: Tone::Yellow },
            StatusModel::NotRun => StyledModel { text: "🯄 Not Run"@, tone: Tone::Gray },
        }
    }

    /// The lines that describe a status in full.
    pub open spec fn detailed(self) -> Seq<StyledModel> {
        match self {
            StatusModel::Pass { .. } => seq![plain("Test case passed!"@)],
            StatusModel::Fail { expected, actual, .. } => seq![
                StyledModel { text: "Test failed!"@, tone: Tone::Red },
                plain("Expected: "@ + expected),
                plain("Actual:   "@ + actual),
            ],
            StatusModel::Error { err_msg } => seq![
                plain("The following error occured:"@),
                plain(err_msg),
            ],
            StatusModel::Cancelled => seq![plain("Test case was cancelled"@)],
            StatusModel::Running => seq![
                plain(
                    "Test case is still running... (stderr/out directed to /tmp/algonds_stderr/out"@,
                ),
            ],
            StatusModel::NotRun => seq![plain("Test case was not yet run"@)],
        }
    }
}

/// The wording of a difficulty.
pub open spec fn difficulty_span(difficulty: Difficulty) -> StyledModel {
    match difficulty {
        Difficulty::Easy => StyledModel { text: "Easy  "@, tone: Tone::Green },
        Difficulty::Medium => StyledModel { text: "Medium"@, tone: Tone::LightYellow },
        Difficulty::Hard => StyledModel { text: "Hard  "@, tone: Tone::Red },
    }
}

fn plain_line(text: String) -> (line: Styled)
    ensures
        line@ == plain(text@),
{
    Styled { text, tone: Tone::Plain }
}

fn styled(text: &str, tone: Tone) -> (line: Styled)
    ensures
        line@ == (StyledModel { text: text@, tone }),
{
    Styled { text: text.to_string(), tone }
}

impl TestCaseStatus {
    /// The short wording of the status, with its colour.
    pub fn into_span(self) -> (span: Styled)
        ensures
            span@ == self@.span(),
    {
        match self {
            TestCaseStatus::Pass { .. } => styled("🗹 Passed", Tone::Green),
            TestCaseStatus::Fail { .. } => styled("🗷 Failed", Tone::Red),
            TestCaseStatus::Error { .. } => styled("‼ Error", Tone::Red),
            TestCaseStatus::Cancelled => styled("⚠ Cancelled", Tone::Yellow),
            TestCaseStatus::Running => styled("⌛ Running", Tone::Yellow),
            TestCaseStatus::NotRun => styled("🯄 Not Run", Tone::Gray),
        }
    }

    /// The lines that describe the status in full.
    pub fn into_detailed(self) -> (lines: Vec<Styled>)
        ensures
            lines_view(lines@) == self@.detailed(),
    {
        let lines = match self {
            TestCaseStatus::Pass { .. } => vec![styled("Test case passed!", Tone::Plain)],
            TestCaseStatus::Fail { expected, actual, time: _, complexity: _ } => vec![
                styled("Test failed!", Tone::Red),
                plain_line("Expected: ".to_string().concat(expected.as_str())),
                plain_line("Actual:   ".to_string().concat(actual.as_str())),
            ],
            TestCaseStatus::Error { err_msg } => vec![
                styled("The following error occured:", Tone::Plain),
                plain_line(err_msg),
            ],
            TestCaseStatus::Cancelled => vec![styled("Test case was cancelled", Tone::Plain)],
            TestCaseStatus::Running => vec![
                styled(
                    "Test case is still running... (stderr/out directed to /tmp/algonds_stderr/out",
                    Tone::Plain,
                ),
            ],
            TestCaseStatus::NotRun => vec![styled("Test case was not yet run", Tone::Plain)],
        };
        assert(lines_view(lines@) =~= self@.detailed());
        lines
    }
}

impl Difficulty {
    /// The wording of the difficulty, with its colour.
    pub fn into_span(&self) -> (span: Styled)
        ensures
            span@ == difficulty_span(*self),
    {
        match self {
            Difficulty::Easy => styled("Easy  ", Tone::Green),
            Difficulty::Medium => styled("Medium", Tone::LightYellow),
            Difficulty::Hard => styled("Hard  ", Tone::Red),
        }
    }
}

} // verus!
