//! A run of the dispatcher, one decision at a time.
//!
//! A [`Session`] never touches the disk and never runs a test. It says
//! what is to be done next ([`Session::action`]), and is told what came
//! of it ([`Session::answer`], [`Session::completed`]). The caller does
//! the work in between.

use vstd::prelude::*;
use vstd::string::*;
use crate::cli::{handle_args, handled_spec, handled_view, option_table};
use crate::cli::{ArgsError, ArgsErrorView, Request, RequestView};
use crate::mode::{all_modes, Mode};
use crate::opts::parse_outcome;
use crate::outcome::{Outcome, OutcomeView};

verus! {

/// The folder that holds one folder for each mode.
pub const TESTS_ROOT: &'static str = "tests";

/// The folder of a mode: its canonical name under the `tests` folder.
pub open spec fn mode_dir_spec(mode: Mode) -> Seq<char> {
    "tests/"@ + mode.name_spec()
}

/// The folder of a mode.
pub fn mode_dir(mode: Mode) -> (dir: String)
    ensures
        dir@ == mode_dir_spec(mode),
{
    let mut dir = String::from_str("tests/");
    dir.append(mode.name());
    dir
}

/// What the harness is handed for one mode: the settings that differ
/// from its defaults.
#[derive(Clone, Debug, PartialEq, Eq)]
pub struct RunConfig {
    pub mode: Mode,
    pub src_base: String,
    pub verbose: bool,
}

/// A [`RunConfig`] as a mathematical value.
pub ghost struct RunConfigView {
    pub mode: Mode,
    pub src_base: Seq<char>,
    pub verbose: bool,
}

impl View for RunConfig {
    type V = RunConfigView;

    open spec fn view(&self) -> RunConfigView {
        RunConfigView { mode: self.mode, src_base: self.src_base@, verbose: self.verbose }
    }
}

/// The settings for one mode: the mode itself, its folder as the source
/// directory, and the verbosity of the whole run.
pub open spec fn run_config(mode: Mode, verbose: bool) -> RunConfigView {
    RunConfigView { mode, src_base: mode_dir_spec(mode), verbose }
}

/// The settings with which the harness runs one mode.
pub fn run_mode(mode: Mode, verbose: bool) -> (config: RunConfig)
    ensures
        config@ == run_config(mode, verbose),
{
    RunConfig { mode, src_base: mode_dir(mode), verbose }
}

/// The run plan: the requested modes as they were given, or every mode
/// where none was requested.
pub open spec fn plan_spec(requested: Seq<Mode>) -> Seq<Mode> {
    if requested.len() > 0 {
        requested
    } else {
        Mode::all()
    }
}

/// The run plan for the requested modes.
pub fn run_plan(requested: Vec<Mode>) -> (plan: Vec<Mode>)
    ensures
        plan@ == plan_spec(requested@),
{
    if requested.len() > 0 {
        requested
    } else {
        all_modes()
    }
}

/// What the caller is to do next.
#[derive(Clone, Debug, PartialEq, Eq)]
pub enum Action {
    /// Find out whether the `tests` folder is a directory, and `answer`.
    CheckRoot,
    /// Find out whether `dir`, the folder of `mode`, is a directory, and
    /// `answer`.
    Probe { mode: Mode, dir: String },
    /// Run the harness with these settings, and say `completed`.
    Run(RunConfig),
    /// Print the text of the outcome and leave with its exit code.
    Finish,
}

/// An [`Action`] as a mathematical value.
pub ghost enum ActionView {
    CheckRoot,
    Probe { mode: Mode, dir: Seq<char> },
    Run(RunConfigView),
    Finish,
}

impl View for Action {
    type V = ActionView;

    open spec fn view(&self) -> ActionView {
        match self {
            Action::CheckRoot => ActionView::CheckRoot,
            Action::Probe { mode, dir } => ActionView::Probe { mode: *mode, dir: dir@ },
            Action::Run(config) => ActionView::Run(config@),
            Action::Finish => ActionView::Finish,
        }
    }
}

/// Where a session stands.
pub ghost enum PhaseView {
    /// The `tests` folder has not been looked at.
    Root,
    /// The folder of the plan's mode at this place is being looked for.
    Probing(int),
    /// The harness is running the plan's mode at this place.
    Running(int),
    /// The run is over.
    Finished(OutcomeView),
}

/// A [`Session`] as a mathematical value.
pub ghost struct SessionView {
    /// The modes to deal with, in order.
    pub plan: Seq<Mode>,
    /// Whether the plan was given on the command line. A missing folder
    /// is then an error; in a full sweep it is passed over.
    pub specified: bool,
    pub verbose: bool,
    /// Whether the harness has run a mode.
    pub any_run: bool,
    pub phase: PhaseView,
}

impl SessionView {
    /// The place in the plan, where the session is at one.
    pub open spec fn well_formed(self) -> bool {
        match self.phase {
            PhaseView::Probing(i) => 0 <= i < self.plan.len(),
            PhaseView::Running(i) => 0 <= i < self.plan.len(),
            _ => true,
        }
    }

    /// A session that is over before it began.
    pub open spec fn ended(outcome: OutcomeView) -> SessionView {
        SessionView {
            plan: Seq::empty(),
            specified: false,
            verbose: false,
            any_run: false,
            phase: PhaseView::Finished(outcome),
        }
    }

    /// The session that a command line opens. A request to run starts
    /// at the `tests` folder, with the run plan of the requested modes.
    /// Help, malformed arguments and invalid mode names end the run at
    /// once.
    pub open spec fn opened(handled: Result<RequestView, ArgsErrorView>) -> SessionView {
        match handled {
            Ok(RequestView::Run { verbose, modes }) => SessionView {
                plan: plan_spec(modes),
                specified: modes.len() > 0,
                verbose,
                any_run: false,
                phase: PhaseView::Root,
            },
            Ok(RequestView::Help) => SessionView::ended(OutcomeView::Help),
            Err(ArgsErrorView::Usage(text)) => SessionView::ended(OutcomeView::UsageError(text)),
            Err(ArgsErrorView::InvalidModes(fields)) => SessionView::ended(
                OutcomeView::InvalidModes(fields),
            ),
        }
    }

    /// Where the session stands once the modes before place `i` are
    /// dealt with: at the folder of the next mode, or at its end.
    pub open spec fn resume(self, i: int) -> PhaseView {
        if i < self.plan.len() {
            PhaseView::Probing(i)
        } else if self.any_run {
            PhaseView::Finished(OutcomeView::Completed)
        } else {
            PhaseView::Finished(OutcomeView::NoTests)
        }
    }

    /// The session after the answer to its question. Without the
    /// `tests` folder the run is over. A mode with a folder is run. A
    /// mode without one ends the run where the plan was given on the
    /// command line, and is passed over in a full sweep. Where nothing
    /// was asked, the answer changes nothing.
    pub open spec fn answer(self, found: bool) -> SessionView {
        match self.phase {
            PhaseView::Root => if found {
                SessionView { phase: self.resume(0), ..self }
            } else {
                SessionView { phase: PhaseView::Finished(OutcomeView::MissingRoot), ..self }
            },
            PhaseView::Probing(i) => if found {
                SessionView { phase: PhaseView::Running(i), ..self }
            } else if self.specified {
                SessionView {
                    phase: PhaseView::Finished(OutcomeView::MissingMode(self.plan[i])),
                    ..self
                }
            } else {
                SessionView { phase: self.resume(i + 1), ..self }
            },
            _ => self,
        }
    }

    /// The session after the harness has run the mode it was handed.
    /// Where no mode was handed out, nothing changes.
    pub open spec fn completed(self) -> SessionView {
        match self.phase {
            PhaseView::Running(i) => {
                let ran = SessionView { any_run: true, ..self };
                SessionView { phase: ran.resume(i + 1), ..ran }
            },
            _ => self,
        }
    }

    /// What is to be done next.
    pub open spec fn action(self) -> ActionView {
        match self.phase {
            PhaseView::Root => ActionView::CheckRoot,
            PhaseView::Probing(i) => ActionView::Probe {
                mode: self.plan[i],
                dir: mode_dir_spec(self.plan[i]),
            },
            PhaseView::Running(i) => ActionView::Run(run_config(self.plan[i], self.verbose)),
            PhaseView::Finished(_) => ActionView::Finish,
        }
    }

    /// How the run ended, once it is over.
    pub open spec fn outcome(self) -> Option<OutcomeView> {
        match self.phase {
            PhaseView::Finished(outcome) => Some(outcome),
            _ => None,
        }
    }

    /// A bound on the questions and runs that are still to come.
    pub open spec fn steps_left(self) -> nat {
        match self.phase {
            PhaseView::Root => 2 * self.plan.len() + 2,
            PhaseView::Probing(i) => (2 * (self.plan.len() - i) + 1) as nat,
            PhaseView::Running(i) => (2 * (self.plan.len() - i)) as nat,
            PhaseView::Finished(_) => 0,
        }
    }
}

enum Phase {
    Root,
    Probing(usize),
    Running(usize),
    Finished(Outcome),
}

impl Phase {
    spec fn view(&self) -> PhaseView {
        match self {
            Phase::Root => PhaseView::Root,
            Phase::Probing(i) => PhaseView::Probing(*i as int),
            Phase::Running(i) => PhaseView::Running(*i as int),
            Phase::Finished(outcome) => PhaseView::Finished(outcome@),
        }
    }
}

/// A run of the dispatcher.
pub struct Session {
    plan: Vec<Mode>,
    specified: bool,
    verbose: bool,
    any_run: bool,
    phase: Phase,
}

impl View for Session {
    type V = SessionView;

    closed spec fn view(&self) -> SessionView {
        SessionView {
            plan: self.plan@,
            specified: self.specified,
            verbose: self.verbose,
            any_run: self.any_run,
            phase: self.phase.view(),
        }
    }
}

impl Session {
    #[verifier::type_invariant]
    spec fn in_plan(&self) -> bool {
        self@.well_formed()
    }

    fn ended(outcome: Outcome) -> (session: Session)
        ensures
            session@ == SessionView::ended(outcome@),
    {
        Session {
            plan: Vec::new(),
            specified: false,
            verbose: false,
            any_run: false,
            phase: Phase::Finished(outcome),
        }
    }

    /// Opens the session for what the command line asks for.
    pub fn open(handled: Result<Request, ArgsError>) -> (session: Session)
        ensures
            session@ == SessionView::opened(handled_view(handled)),
            session@.well_formed(),
    {
        match handled {
            Ok(Request::Run { verbose, modes }) => {
                let specified = modes.len() > 0;
                Session {
                    plan: run_plan(modes),
                    specified,
                    verbose,
                    any_run: false,
                    phase: Phase::Root,
                }
            },
            Ok(Request::Help) => Session::ended(Outcome::Help),
            Err(ArgsError::Usage(text)) => Session::ended(Outcome::UsageError(text)),
            Err(ArgsError::InvalidModes(fields)) => Session::ended(Outcome::InvalidModes(fields)),
        }
    }

    /// Opens the session for the arguments of the command line, the
    /// program's own name left out.
    pub fn from_args(args: &Vec<String>) -> (session: Session)
        ensures
            session@ == SessionView::opened(
                handled_spec(parse_outcome(option_table(), args.deep_view())),
            ),
            session@.well_formed(),
    {
        Session::open(handle_args(args))
    }

    fn resume(&self, i: usize) -> (phase: Phase)
        ensures
            phase.view() == self@.resume(i as int),
    {
        if i < self.plan.len() {
            Phase::Probing(i)
        } else if self.any_run {
            Phase::Finished(Outcome::Completed)
        } else {
            Phase::Finished(Outcome::NoTests)
        }
    }

    /// What is to be done next.
    pub fn action(&self) -> (action: Action)
        ensures
            action@ == self@.action(),
            self@.well_formed(),
    {
        proof {
            use_type_invariant(self);
        }
        match &self.phase {
            Phase::Root => Action::CheckRoot,
            Phase::Probing(i) => {
                let mode = self.plan[*i];
                Action::Probe { mode, dir: mode_dir(mode) }
            },
            Phase::Running(i) => Action::Run(run_mode(self.plan[*i], self.verbose)),
            Phase::Finished(_) => Action::Finish,
        }
    }

    /// Takes the answer to the question that `action` asked: whether
    /// the folder is a directory.
    pub fn answer(&mut self, found: bool)
        ensures
            final(self)@ == old(self)@.answer(found),
            final(self)@.well_formed(),
    {
        proof {
            use_type_invariant(&*self);
        }
        let next = match &self.phase {
            Phase::Root => if found {
                self.resume(0)
            } else {
                Phase::Finished(Outcome::MissingRoot)
            },
            Phase::Probing(i) => if found {
                Phase::Running(*i)
            } else if self.specified {
                Phase::Finished(Outcome::MissingMode(self.plan[*i]))
            } else {
                assert(*i < self.plan.len());
                self.resume(*i + 1)
            },
            _ => {
                return ;
            },
        };
        self.phase = next;
    }

    /// Takes note that the harness has run the mode that `action`
    /// handed out.
    pub fn completed(&mut self)
        ensures
            final(self)@ == old(self)@.completed(),
            final(self)@.well_formed(),
    {
        proof {
            use_type_invariant(&*self);
        }
        let at = match &self.phase {
            Phase::Running(i) => *i,
            _ => {
                return ;
            },
        };
        assert(at < self.plan.len());
        self.any_run = true;
        let next = self.resume(at + 1);
        self.phase = next;
    }

    /// How the run ended, once it is over.
    pub fn outcome(&self) -> (outcome: Option<&Outcome>)
        ensures
            match outcome {
                Some(outcome) => self@.outcome() == Some(outcome@),
                None => self@.outcome() is None,
            },
    {
        match &self.phase {
            Phase::Finished(outcome) => Some(outcome),
            _ => None,
        }
    }

    /// The run plan.
    pub fn plan(&self) -> (plan: &Vec<Mode>)
        ensures
            plan@ == self@.plan,
    {
        &self.plan
    }

    /// Whether the plan was given on the command line.
    pub fn modes_specified(&self) -> (specified: bool)
        ensures
            specified == self@.specified,
    {
        self.specified
    }
}

} // verus!
