//! What a command line settles about the run that it opens.

use vstd::prelude::*;
use crate::cli::{
    handled_spec, invalid_fields, lemma_invalid_list, lemma_valid_list, mode_list, named_modes,
    names_no_mode, names_of, request_spec, usage_spec,
};
use crate::fields::comma_fields;
use crate::mode::Mode;
use crate::opts::Occurrences;
use crate::outcome::{invalid_mode_line, invalid_mode_lines, OutcomeView};
use crate::run::{end_of, lemma_ended_session_is_silent, probes_of, runs_of};
use crate::session::{ActionView, SessionView};

verus! {

/// Whether `part` stands somewhere in `text`, in one piece.
pub open spec fn holds_text(text: Seq<char>, part: Seq<char>) -> bool {
    exists|at: int|
        0 <= at && at + part.len() <= text.len() && #[trigger] text.subrange(
            at,
            at + part.len(),
        ) == part
}

/// A valid list of modes is the run plan: the plan holds the mode of
/// each field, in the order of the list, nothing added and nothing left
/// out, and the run starts at the `tests` folder.
pub proof fn lemma_valid_list_is_the_plan(list: Seq<char>, verbose: bool)
    requires
        mode_list(list) is Ok,
    ensures
        ({
            let s = SessionView::opened(request_spec(false, verbose, Some(list)));
            &&& s.plan == named_modes(comma_fields(list))
            &&& s.plan.len() == comma_fields(list).len()
            &&& forall|i: int|
                0 <= i < s.plan.len() ==> (#[trigger] s.plan[i]).name_spec() == comma_fields(
                    list,
                )[i]
            &&& s.specified
            &&& s.verbose == verbose
            &&& !s.any_run
            &&& s.phase is Root
        }),
{
    lemma_valid_list(list);
    let s = SessionView::opened(request_spec(false, verbose, Some(list)));
    let fields = comma_fields(list);
    assert forall|i: int| 0 <= i < s.plan.len() implies (#[trigger] s.plan[i]).name_spec()
        == fields[i] by {
        assert(names_of(s.plan)[i] == fields[i]);
    }
}

/// The report of the invalid fields holds the line of each of them.
pub proof fn lemma_report_holds_each_line(fields: Seq<Seq<char>>, j: int)
    requires
        0 <= j < fields.len(),
    ensures
        holds_text(invalid_mode_lines(fields), invalid_mode_line(fields[j])),
    decreases fields.len(),
{
    let text = invalid_mode_lines(fields);
    let before = invalid_mode_lines(fields.drop_last());
    let line = invalid_mode_line(fields[j]);
    if j == fields.len() - 1 {
        let at = before.len() as int;
        assert(text.subrange(at, at + line.len()) =~= line);
    } else {
        lemma_report_holds_each_line(fields.drop_last(), j);
        let at = choose|at: int|
            0 <= at && at + line.len() <= before.len() && #[trigger] before.subrange(
                at,
                at + line.len(),
            ) == line;
        assert(text.subrange(at, at + line.len()) =~= before.subrange(at, at + line.len()));
    }
}

/// A list with a field that names no mode abandons the run: the session
/// is over as it opens, no folder is looked for, the harness is never
/// run, and what is printed holds the line of every field that names no
/// mode.
pub proof fn lemma_invalid_list_abandons_run(
    list: Seq<char>,
    verbose: bool,
    root: bool,
    dirs: Seq<bool>,
)
    requires
        mode_list(list) is Err,
    ensures
        ({
            let s = SessionView::opened(request_spec(false, verbose, Some(list)));
            let outcome = OutcomeView::InvalidModes(invalid_fields(comma_fields(list)));
            &&& s.outcome() == Some(outcome)
            &&& s.action() == ActionView::Finish
            &&& runs_of(s, root, dirs) == Seq::<Mode>::empty()
            &&& probes_of(s, root, dirs) == Seq::<Mode>::empty()
            &&& end_of(s, root, dirs) == s
            &&& forall|i: int|
                0 <= i < comma_fields(list).len() && names_no_mode(
                    #[trigger] comma_fields(list)[i],
                ) ==> holds_text(outcome.text(), invalid_mode_line(comma_fields(list)[i]))
        }),
{
    lemma_invalid_list(list);
    let s = SessionView::opened(request_spec(false, verbose, Some(list)));
    let fields = comma_fields(list);
    let reported = invalid_fields(fields);
    lemma_ended_session_is_silent(s, root, dirs);
    assert forall|i: int| 0 <= i < fields.len() && names_no_mode(
        #[trigger] fields[i],
    ) implies holds_text(invalid_mode_lines(reported), invalid_mode_line(fields[i])) by {
        assert(reported.contains(fields[i]));
        let j = choose|j: int| 0 <= j < reported.len() && reported[j] == fields[i];
        lemma_report_holds_each_line(reported, j);
    }
}

/// Without a list of modes the run plan is the full sweep: each of the
/// nine modes, not one of them demanded.
pub proof fn lemma_no_list_is_the_full_sweep(verbose: bool)
    ensures
        ({
            let s = SessionView::opened(request_spec(false, verbose, None));
            &&& s.plan == Mode::all()
            &&& s.plan.len() == 9
            &&& !s.specified
            &&& s.verbose == verbose
            &&& !s.any_run
            &&& s.phase is Root
        }),
{
}

/// A call for help ends the run as it opens, whatever else the command
/// line holds: no folder is looked for, the harness is never run, the
/// usage text is printed and the exit code is 0.
pub proof fn lemma_help_short_circuits(
    verbose: bool,
    modes: Option<Seq<char>>,
    root: bool,
    dirs: Seq<bool>,
)
    ensures
        ({
            let s = SessionView::opened(request_spec(true, verbose, modes));
            &&& s.outcome() == Some(OutcomeView::Help)
            &&& s.action() == ActionView::Finish
            &&& runs_of(s, root, dirs) == Seq::<Mode>::empty()
            &&& probes_of(s, root, dirs) == Seq::<Mode>::empty()
            &&& end_of(s, root, dirs) == s
            &&& OutcomeView::Help.exit_code() == 0
            &&& OutcomeView::Help.text() == usage_spec()
        }),
{
    let s = SessionView::opened(request_spec(true, verbose, modes));
    lemma_ended_session_is_silent(s, root, dirs);
}

/// Every command line that parses and holds `-h` or `--help` opens a
/// session that is over, with help as its outcome.
pub proof fn lemma_help_flag_opens_help(result: Occurrences)
    requires
        result["h"@].len() > 0,
    ensures
        SessionView::opened(handled_spec(Ok::<Occurrences, Seq<char>>(result)))
            == SessionView::ended(OutcomeView::Help),
{
}

/// Malformed arguments end the run as it opens, with the parser's
/// message and exit code 1.
pub proof fn lemma_usage_error_ends_run(message: Seq<char>, root: bool, dirs: Seq<bool>)
    ensures
        ({
            let s = SessionView::opened(
                handled_spec(
                    Err::<Occurrences, Seq<char>>(message),
                ),
            );
            &&& s.outcome() == Some(OutcomeView::UsageError(message))
            &&& s.action() == ActionView::Finish
            &&& runs_of(s, root, dirs) == Seq::<Mode>::empty()
            &&& probes_of(s, root, dirs) == Seq::<Mode>::empty()
            &&& OutcomeView::UsageError(message).exit_code() == 1
        }),
{
    let s = SessionView::opened(
        handled_spec(Err::<Occurrences, Seq<char>>(message)),
    );
    lemma_ended_session_is_silent(s, root, dirs);
}

} // verus!
