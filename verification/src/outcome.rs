//! How a run ends: the exit code and what is printed.

use vstd::prelude::*;
use vstd::string::*;
use crate::cli::{usage, usage_spec};
use crate::fields::texts;
use crate::mode::{invalid_mode_message, invalid_mode_report, Mode};

verus! {

/// How a run ends.
#[derive(Clone, Debug, PartialEq, Eq)]
pub enum Outcome {
    /// Help was asked for and shown.
    Help,
    /// The arguments were malformed. Holds the parser's message.
    UsageError(String),
    /// The list of modes held fields that name no mode. Holds each of
    /// them, in the order of the list.
    InvalidModes(Vec<String>),
    /// There is no `tests` folder.
    MissingRoot,
    /// A mode that was asked for by name has no folder.
    MissingMode(Mode),
    /// No mode had a folder, so the harness was never run.
    NoTests,
    /// The harness ran at least one mode, and every mode of the plan was
    /// dealt with.
    Completed,
}

/// An [`Outcome`] as a mathematical value.
pub ghost enum OutcomeView {
    Help,
    UsageError(Seq<char>),
    InvalidModes(Seq<Seq<char>>),
    MissingRoot,
    MissingMode(Mode),
    NoTests,
    Completed,
}

impl View for Outcome {
    type V = OutcomeView;

    open spec fn view(&self) -> OutcomeView {
        match self {
            Outcome::Help => OutcomeView::Help,
            Outcome::UsageError(text) => OutcomeView::UsageError(text@),
            Outcome::InvalidModes(fields) => OutcomeView::InvalidModes(texts(fields@)),
            Outcome::MissingRoot => OutcomeView::MissingRoot,
            Outcome::MissingMode(mode) => OutcomeView::MissingMode(*mode),
            Outcome::NoTests => OutcomeView::NoTests,
            Outcome::Completed => OutcomeView::Completed,
        }
    }
}

/// The line that reports one field of a mode list that names no mode.
pub open spec fn invalid_mode_line(field: Seq<char>) -> Seq<char> {
    invalid_mode_message(field) + "\n"@
}

/// One line for each field that names no mode, in their order.
pub open spec fn invalid_mode_lines(fields: Seq<Seq<char>>) -> Seq<char>
    decreases fields.len(),
{
    if fields.len() == 0 {
        Seq::empty()
    } else {
        invalid_mode_lines(fields.drop_last()) + invalid_mode_line(fields.last())
    }
}

/// The line that reports the missing folder of a mode.
pub open spec fn missing_mode_line(mode: Mode) -> Seq<char> {
    "Could not find '"@ + mode.name_spec() + "' folder in 'tests'. Please ensure it exists.\n"@
}

impl OutcomeView {
    /// The exit code of the process: 1 where the arguments were
    /// malformed or a folder that the run needs is missing, else 0. A
    /// list with invalid mode names ends the run with 0, after the
    /// report of each of them.
    pub open spec fn exit_code(self) -> int {
        match self {
            OutcomeView::UsageError(_) => 1,
            OutcomeView::MissingRoot => 1,
            OutcomeView::MissingMode(_) => 1,
            OutcomeView::Help => 0,
            OutcomeView::InvalidModes(_) => 0,
            OutcomeView::NoTests => 0,
            OutcomeView::Completed => 0,
        }
    }

    /// Everything that is printed at the end of the run.
    pub open spec fn text(self) -> Seq<char> {
        match self {
            OutcomeView::Help => usage_spec(),
            OutcomeView::UsageError(text) => text + "\n"@,
            OutcomeView::InvalidModes(fields) => invalid_mode_lines(fields),
            OutcomeView::MissingRoot => "error: No 'tests' folder were found\n"@ + usage_spec(),
            OutcomeView::MissingMode(mode) => missing_mode_line(mode),
            OutcomeView::NoTests => "No tests were found.\n"@,
            OutcomeView::Completed => Seq::empty(),
        }
    }
}

/// The lines that report the fields of a mode list that name no mode.
pub fn invalid_modes_report(fields: &Vec<String>) -> (report: String)
    ensures
        report@ == invalid_mode_lines(texts(fields@)),
{
    let mut report = String::new();
    let mut i: usize = 0;
    assert(texts(fields@).take(0) =~= Seq::empty());
    while i < fields.len()
        invariant
            i <= fields.len(),
            report@ == invalid_mode_lines(texts(fields@).take(i as int)),
        decreases fields.len() - i,
    {
        proof {
            let before = texts(fields@).take(i as int);
            let now = texts(fields@).take(i + 1);
            assert(now.drop_last() =~= before);
            assert(now.last() == fields[i as int]@);
        }
        let line = invalid_mode_report(fields[i].as_str());
        report.append(line.as_str());
        report.append("\n");
        i += 1;
    }
    assert(texts(fields@).take(i as int) =~= texts(fields@));
    report
}

/// The line that reports the missing folder of a mode.
pub fn missing_mode_report(mode: Mode) -> (report: String)
    ensures
        report@ == missing_mode_line(mode),
{
    let mut report = String::from_str("Could not find '");
    report.append(mode.name());
    report.append("' folder in 'tests'. Please ensure it exists.\n");
    report
}

impl Outcome {
    /// The exit code of the process.
    pub fn exit_code(&self) -> (code: i32)
        ensures
            code == self@.exit_code(),
    {
        match self {
            Outcome::UsageError(_) => 1,
            Outcome::MissingRoot => 1,
            Outcome::MissingMode(_) => 1,
            Outcome::Help => 0,
            Outcome::InvalidModes(_) => 0,
            Outcome::NoTests => 0,
            Outcome::Completed => 0,
        }
    }

    /// Everything that is printed at the end of the run.
    pub fn text(&self) -> (text: String)
        ensures
            text@ == self@.text(),
    {
        match self {
            Outcome::Help => usage(),
            Outcome::UsageError(message) => {
                let mut text = message.clone();
                text.append("\n");
                text
            },
            Outcome::InvalidModes(fields) => invalid_modes_report(fields),
            Outcome::MissingRoot => {
                let mut text = String::from_str("error: No 'tests' folder were found\n");
                let usage = usage();
                text.append(usage.as_str());
                text
            },
            Outcome::MissingMode(mode) => missing_mode_report(*mode),
            Outcome::NoTests => String::from_str("No tests were found.\n"),
            Outcome::Completed => String::new(),
        }
    }
}

} // verus!
