//! Whole runs: what a session asks for and how it ends, from any state
//! and for any answers of the file system.
//!
//! The answers are given as `root`, whether the `tests` folder is a
//! directory, and `dirs`, which says for each place of the plan whether
//! the folder of the mode at that place is one.

use vstd::prelude::*;
use crate::mode::Mode;
use crate::outcome::OutcomeView;
use crate::session::{ActionView, PhaseView, SessionView};

verus! {

/// The session after the caller has done what it asked for.
pub open spec fn step(s: SessionView, root: bool, dirs: Seq<bool>) -> SessionView {
    match s.phase {
        PhaseView::Root => s.answer(root),
        PhaseView::Probing(i) => s.answer(dirs[i]),
        PhaseView::Running(_) => s.completed(),
        PhaseView::Finished(_) => s,
    }
}

/// The state in which the run ends.
pub open spec fn end_of(s: SessionView, root: bool, dirs: Seq<bool>) -> SessionView
    decreases s.steps_left(),
    when s.well_formed()
{
    if s.phase is Finished {
        s
    } else {
        end_of(step(s, root, dirs), root, dirs)
    }
}

/// The modes that are handed to the harness until the run ends, in the
/// order in which they are handed out.
pub open spec fn runs_of(s: SessionView, root: bool, dirs: Seq<bool>) -> Seq<Mode>
    decreases s.steps_left(),
    when s.well_formed()
{
    match s.phase {
        PhaseView::Finished(_) => Seq::empty(),
        PhaseView::Running(i) => seq![s.plan[i]] + runs_of(step(s, root, dirs), root, dirs),
        _ => runs_of(step(s, root, dirs), root, dirs),
    }
}

/// The modes whose folders are looked for until the run ends, in the
/// order in which they are looked for.
pub open spec fn probes_of(s: SessionView, root: bool, dirs: Seq<bool>) -> Seq<Mode>
    decreases s.steps_left(),
    when s.well_formed()
{
    match s.phase {
        PhaseView::Finished(_) => Seq::empty(),
        PhaseView::Probing(i) => seq![s.plan[i]] + probes_of(step(s, root, dirs), root, dirs),
        _ => probes_of(step(s, root, dirs), root, dirs),
    }
}

/// The modes of a plan that have a folder, in the order of the plan.
pub open spec fn found_modes(plan: Seq<Mode>, dirs: Seq<bool>) -> Seq<Mode>
    decreases plan.len(),
{
    if plan.len() == 0 {
        Seq::empty()
    } else if dirs[0] {
        seq![plan[0]] + found_modes(plan.drop_first(), dirs.drop_first())
    } else {
        found_modes(plan.drop_first(), dirs.drop_first())
    }
}

/// The first place without a folder, or the number of places where each
/// has one.
pub open spec fn first_missing(dirs: Seq<bool>) -> int
    decreases dirs.len(),
{
    if dirs.len() == 0 || !dirs[0] {
        0
    } else {
        1 + first_missing(dirs.drop_first())
    }
}

/// `first_missing` is a place of the list or its length, every place
/// before it has a folder, and the place itself has none.
pub proof fn lemma_first_missing(dirs: Seq<bool>)
    ensures
        0 <= first_missing(dirs) <= dirs.len(),
        forall|j: int| 0 <= j < first_missing(dirs) ==> dirs[j],
        first_missing(dirs) < dirs.len() ==> !dirs[first_missing(dirs)],
    decreases dirs.len(),
{
    if dirs.len() > 0 && dirs[0] {
        let rest = dirs.drop_first();
        lemma_first_missing(rest);
        assert forall|j: int| 0 <= j < first_missing(dirs) implies dirs[j] by {
            if j > 0 {
                assert(dirs[j] == rest[j - 1]);
            }
        }
        if first_missing(rest) < rest.len() {
            assert(rest[first_missing(rest)] == dirs[first_missing(rest) + 1]);
        }
    }
}

/// Every step of a session that is in its plan leaves it there.
pub proof fn lemma_step_well_formed(s: SessionView, root: bool, dirs: Seq<bool>)
    requires
        s.well_formed(),
    ensures
        step(s, root, dirs).well_formed(),
        s.answer(root).well_formed(),
        s.completed().well_formed(),
        !(s.phase is Finished) ==> step(s, root, dirs).steps_left() < s.steps_left(),
{
}

/// A session that is over asks for nothing more, and nothing changes it:
/// no folder is looked for and no mode is handed to the harness.
pub proof fn lemma_ended_session_is_silent(s: SessionView, root: bool, dirs: Seq<bool>)
    requires
        s.phase is Finished,
    ensures
        s.action() == ActionView::Finish,
        s.answer(root) == s,
        s.completed() == s,
        end_of(s, root, dirs) == s,
        runs_of(s, root, dirs) == Seq::<Mode>::empty(),
        probes_of(s, root, dirs) == Seq::<Mode>::empty(),
{
}

/// Without the `tests` folder the run ends with exit code 1 before any
/// mode's folder is looked for, and the harness is never run.
pub proof fn lemma_missing_root_ends_run(s: SessionView, dirs: Seq<bool>)
    requires
        s.phase is Root,
    ensures
        s.action() == ActionView::CheckRoot,
        end_of(s, false, dirs).outcome() == Some(OutcomeView::MissingRoot),
        OutcomeView::MissingRoot.exit_code() == 1,
        probes_of(s, false, dirs) == Seq::<Mode>::empty(),
        runs_of(s, false, dirs) == Seq::<Mode>::empty(),
{
    let next = step(s, false, dirs);
    assert(next.phase == PhaseView::Finished(OutcomeView::MissingRoot));
    lemma_ended_session_is_silent(next, false, dirs);
}

/// A full sweep from place `i` on.
proof fn lemma_sweep_from(s: SessionView, root: bool, dirs: Seq<bool>, i: int)
    requires
        !s.specified,
        dirs.len() == s.plan.len(),
        0 <= i <= s.plan.len(),
        s.phase == s.resume(i),
    ensures
        probes_of(s, root, dirs) == s.plan.skip(i),
        runs_of(s, root, dirs) == found_modes(s.plan.skip(i), dirs.skip(i)),
        end_of(s, root, dirs).outcome() == Some(
            if s.any_run || runs_of(s, root, dirs).len() > 0 {
                OutcomeView::Completed
            } else {
                OutcomeView::NoTests
            },
        ),
    decreases s.plan.len() - i,
{
    let plan = s.plan;
    if i == plan.len() {
        lemma_ended_session_is_silent(s, root, dirs);
        assert(plan.skip(i) =~= Seq::empty());
    } else {
        assert(s.phase == PhaseView::Probing(i));
        assert(plan.skip(i).drop_first() =~= plan.skip(i + 1));
        assert(dirs.skip(i).drop_first() =~= dirs.skip(i + 1));
        assert(plan.skip(i) =~= seq![plan[i]] + plan.skip(i + 1));
        let asked = step(s, root, dirs);
        if dirs[i] {
            assert(asked.phase == PhaseView::Running(i));
            let ran = step(asked, root, dirs);
            assert(ran.phase == ran.resume(i + 1));
            lemma_sweep_from(ran, root, dirs, i + 1);
            assert(runs_of(asked, root, dirs) == seq![plan[i]] + runs_of(ran, root, dirs));
            assert(probes_of(asked, root, dirs) == probes_of(ran, root, dirs));
            assert(end_of(asked, root, dirs) == end_of(ran, root, dirs));
        } else {
            assert(asked.phase == asked.resume(i + 1));
            lemma_sweep_from(asked, root, dirs, i + 1);
        }
    }
}

/// A plan from the command line from place `i` on.
proof fn lemma_given_from(s: SessionView, root: bool, dirs: Seq<bool>, i: int)
    requires
        s.specified,
        dirs.len() == s.plan.len(),
        0 <= i <= s.plan.len(),
        s.phase == s.resume(i),
    ensures
        ({
            let stop = i + first_missing(dirs.skip(i));
            &&& i <= stop <= s.plan.len()
            &&& runs_of(s, root, dirs) == s.plan.subrange(i, stop)
            &&& probes_of(s, root, dirs) == s.plan.subrange(
                i,
                if stop < s.plan.len() {
                    stop + 1
                } else {
                    stop
                },
            )
            &&& end_of(s, root, dirs).outcome() == Some(
                if stop < s.plan.len() {
                    OutcomeView::MissingMode(s.plan[stop])
                } else if s.any_run || stop > i {
                    OutcomeView::Completed
                } else {
                    OutcomeView::NoTests
                },
            )
        }),
    decreases s.plan.len() - i,
{
    let plan = s.plan;
    lemma_first_missing(dirs.skip(i));
    if i == plan.len() {
        lemma_ended_session_is_silent(s, root, dirs);
        assert(plan.subrange(i, i) =~= Seq::empty());
    } else {
        assert(s.phase == PhaseView::Probing(i));
        assert(dirs.skip(i).drop_first() =~= dirs.skip(i + 1));
        let asked = step(s, root, dirs);
        if dirs[i] {
            assert(asked.phase == PhaseView::Running(i));
            let ran = step(asked, root, dirs);
            assert(ran.phase == ran.resume(i + 1));
            lemma_given_from(ran, root, dirs, i + 1);
            let stop = i + first_missing(dirs.skip(i));
            assert(stop == i + 1 + first_missing(dirs.skip(i + 1)));
            assert(runs_of(asked, root, dirs) == seq![plan[i]] + runs_of(ran, root, dirs));
            assert(probes_of(asked, root, dirs) == probes_of(ran, root, dirs));
            assert(end_of(asked, root, dirs) == end_of(ran, root, dirs));
            assert(plan.subrange(i, stop) =~= seq![plan[i]] + plan.subrange(i + 1, stop));
            let last = if stop < plan.len() {
                stop + 1
            } else {
                stop
            };
            assert(plan.subrange(i, last) =~= seq![plan[i]] + plan.subrange(i + 1, last));
        } else {
            assert(asked.phase == PhaseView::Finished(OutcomeView::MissingMode(plan[i])));
            lemma_ended_session_is_silent(asked, root, dirs);
            assert(plan.subrange(i, i) =~= Seq::empty());
            assert(plan.subrange(i, i + 1) =~= seq![plan[i]]);
        }
    }
}

/// A full sweep, with the `tests` folder in place, looks for the folder
/// of every mode of the plan in turn, hands the harness each mode that
/// has one and passes over the others. It ends with exit code 0: with
/// `NoTests` where no mode had a folder, else with `Completed`.
pub proof fn lemma_full_sweep(s: SessionView, dirs: Seq<bool>)
    requires
        s.phase is Root,
        !s.specified,
        !s.any_run,
        dirs.len() == s.plan.len(),
    ensures
        probes_of(s, true, dirs) == s.plan,
        runs_of(s, true, dirs) == found_modes(s.plan, dirs),
        end_of(s, true, dirs).outcome() == Some(
            if found_modes(s.plan, dirs).len() > 0 {
                OutcomeView::Completed
            } else {
                OutcomeView::NoTests
            },
        ),
        OutcomeView::Completed.exit_code() == 0,
        OutcomeView::NoTests.exit_code() == 0,
{
    let asked = step(s, true, dirs);
    assert(asked.phase == asked.resume(0));
    lemma_sweep_from(asked, true, dirs, 0);
    assert(s.plan.skip(0) =~= s.plan);
    assert(dirs.skip(0) =~= dirs);
}

/// A plan from the command line, with the `tests` folder in place, is
/// followed up to its first mode without a folder: the harness is
/// handed each mode before that one, in the order of the plan, and the
/// run ends there with exit code 1, no later folder looked for. Where
/// every mode has a folder, each is run and the run ends with
/// `Completed`.
pub proof fn lemma_given_plan(s: SessionView, dirs: Seq<bool>)
    requires
        s.phase is Root,
        s.specified,
        !s.any_run,
        dirs.len() == s.plan.len(),
    ensures
        ({
            let stop = first_missing(dirs);
            &&& 0 <= stop <= s.plan.len()
            &&& runs_of(s, true, dirs) == s.plan.take(stop)
            &&& stop < s.plan.len() ==> {
                &&& probes_of(s, true, dirs) == s.plan.take(stop + 1)
                &&& end_of(s, true, dirs).outcome() == Some(
                    OutcomeView::MissingMode(s.plan[stop]),
                )
                &&& OutcomeView::MissingMode(s.plan[stop]).exit_code() == 1
            }
            &&& stop == s.plan.len() ==> {
                &&& probes_of(s, true, dirs) == s.plan
                &&& end_of(s, true, dirs).outcome() == Some(
                    if s.plan.len() > 0 {
                        OutcomeView::Completed
                    } else {
                        OutcomeView::NoTests
                    },
                )
            }
        }),
{
    let asked = step(s, true, dirs);
    assert(asked.phase == asked.resume(0));
    lemma_given_from(asked, true, dirs, 0);
    assert(dirs.skip(0) =~= dirs);
    let stop = first_missing(dirs);
    assert(s.plan.subrange(0, stop) =~= s.plan.take(stop));
    if stop < s.plan.len() {
        assert(s.plan.subrange(0, stop + 1) =~= s.plan.take(stop + 1));
    } else {
        assert(s.plan.subrange(0, stop) =~= s.plan);
    }
}

} // verus!
