use cargo_compiletest::cli::{usage, ArgsError, Request};
use cargo_compiletest::mode::{all_modes, Mode};
use cargo_compiletest::outcome::{invalid_modes_report, missing_mode_report, Outcome};
use cargo_compiletest::session::{mode_dir, run_mode, run_plan, Action, RunConfig, Session, TESTS_ROOT};

/// What a caller saw of one run.
#[derive(Debug, PartialEq)]
struct Seen {
    asked: Vec<String>,
    ran: Vec<RunConfig>,
    outcome: Outcome,
}

/// Runs a session to its end against the folders in `disk`.
fn drive(args: &[&str], disk: &[&str]) -> Seen {
    let args: Vec<String> = args.iter().map(|a| a.to_string()).collect();
    let mut session = Session::from_args(&args);
    let mut asked = Vec::new();
    let mut ran = Vec::new();
    for _ in 0..100 {
        match session.action() {
            Action::CheckRoot => {
                asked.push(TESTS_ROOT.to_string());
                session.answer(disk.contains(&TESTS_ROOT));
            }
            Action::Probe { mode, dir } => {
                assert_eq!(dir, mode_dir(mode));
                asked.push(dir.clone());
                session.answer(disk.contains(&dir.as_str()));
            }
            Action::Run(config) => {
                ran.push(config);
                session.completed();
            }
            Action::Finish => {
                let outcome = session.outcome().expect("a finished session has an outcome").clone();
                return Seen { asked, ran, outcome };
            }
        }
    }
    panic!("the session did not end");
}

fn config(mode: Mode, src_base: &str, verbose: bool) -> RunConfig {
    RunConfig { mode, src_base: src_base.to_string(), verbose }
}

fn all_dirs() -> Vec<String> {
    all_modes().into_iter().map(mode_dir).collect()
}

#[test]
fn the_folder_of_a_mode_is_its_name_under_tests() {
    assert_eq!(mode_dir(Mode::RunPass), "tests/run-pass");
    assert_eq!(mode_dir(Mode::RunPassValgrind), "tests/run-pass-valgrind");
    assert_eq!(mode_dir(Mode::DebugInfoGdb), "tests/debuginfo-gdb");
    assert_eq!(TESTS_ROOT, "tests");
}

#[test]
fn the_settings_of_a_mode_hold_its_folder() {
    assert_eq!(run_mode(Mode::CompileFail, false), config(Mode::CompileFail, "tests/compile-fail", false));
    assert_eq!(run_mode(Mode::Codegen, true), config(Mode::Codegen, "tests/codegen", true));
}

#[test]
fn the_plan_is_the_request_or_the_full_sweep() {
    assert_eq!(run_plan(vec![]), all_modes());
    assert_eq!(run_plan(vec![Mode::Pretty]), vec![Mode::Pretty]);
    assert_eq!(
        run_plan(vec![Mode::RunPass, Mode::CompileFail, Mode::RunPass]),
        vec![Mode::RunPass, Mode::CompileFail, Mode::RunPass]
    );
}

#[test]
fn a_listed_plan_is_kept_as_given() {
    let args = vec!["--modes=pretty,run-pass,pretty".to_string()];
    let session = Session::from_args(&args);
    assert_eq!(session.plan(), &vec![Mode::Pretty, Mode::RunPass, Mode::Pretty]);
    assert!(session.modes_specified());
    assert_eq!(session.action(), Action::CheckRoot);
    assert_eq!(session.outcome(), None);
}

#[test]
fn without_a_list_the_plan_is_the_full_sweep() {
    let session = Session::from_args(&Vec::new());
    assert_eq!(session.plan(), &all_modes());
    assert_eq!(session.plan().len(), 9);
    assert!(!session.modes_specified());
}

#[test]
fn a_sweep_runs_what_exists_and_skips_the_rest() {
    let seen = drive(&[], &["tests", "tests/run-pass"]);
    let mut asked = vec!["tests".to_string()];
    asked.extend(all_dirs());
    assert_eq!(seen.asked, asked);
    assert_eq!(seen.ran, vec![config(Mode::RunPass, "tests/run-pass", false)]);
    assert_eq!(seen.outcome, Outcome::Completed);
    assert_eq!(seen.outcome.exit_code(), 0);
    assert_eq!(seen.outcome.text(), "");
}

#[test]
fn a_sweep_runs_the_modes_in_their_fixed_order() {
    let seen = drive(&["-v"], &["tests", "tests/codegen", "tests/pretty", "tests/compile-fail"]);
    assert_eq!(
        seen.ran,
        vec![
            config(Mode::CompileFail, "tests/compile-fail", true),
            config(Mode::Pretty, "tests/pretty", true),
            config(Mode::Codegen, "tests/codegen", true),
        ]
    );
    assert_eq!(seen.outcome, Outcome::Completed);
}

#[test]
fn a_sweep_over_every_folder_runs_every_mode() {
    let mut disk = all_dirs();
    disk.push("tests".to_string());
    let disk: Vec<&str> = disk.iter().map(|d| d.as_str()).collect();
    let seen = drive(&[], &disk);
    let ran: Vec<Mode> = seen.ran.iter().map(|c| c.mode).collect();
    assert_eq!(ran, all_modes());
    assert_eq!(seen.outcome, Outcome::Completed);
}

#[test]
fn an_invalid_mode_name_abandons_the_run() {
    let seen = drive(&["--modes=run-pass,bogus-mode"], &["tests", "tests/run-pass"]);
    assert_eq!(seen.asked, Vec::<String>::new());
    assert_eq!(seen.ran, vec![]);
    assert_eq!(seen.outcome, Outcome::InvalidModes(vec!["bogus-mode".to_string()]));
    assert!(seen.outcome.text().contains("'bogus-mode' is not a valid mode"));
    assert_eq!(seen.outcome.text(), "'bogus-mode' is not a valid mode\n");
    assert_eq!(seen.outcome.exit_code(), 0);
}

#[test]
fn a_listed_mode_without_a_folder_ends_the_run() {
    let seen = drive(&["--modes=compile-fail"], &["tests"]);
    assert_eq!(seen.asked, vec!["tests".to_string(), "tests/compile-fail".to_string()]);
    assert_eq!(seen.ran, vec![]);
    assert_eq!(seen.outcome, Outcome::MissingMode(Mode::CompileFail));
    assert_eq!(
        seen.outcome.text(),
        "Could not find 'compile-fail' folder in 'tests'. Please ensure it exists.\n"
    );
    assert_eq!(seen.outcome.exit_code(), 1);
}

#[test]
fn a_listed_plan_stops_at_its_first_missing_folder() {
    let seen = drive(
        &["-m", "run-pass,pretty,codegen,run-fail"],
        &["tests", "tests/run-pass", "tests/codegen", "tests/run-fail"],
    );
    assert_eq!(
        seen.asked,
        vec!["tests".to_string(), "tests/run-pass".to_string(), "tests/pretty".to_string()]
    );
    assert_eq!(seen.ran, vec![config(Mode::RunPass, "tests/run-pass", false)]);
    assert_eq!(seen.outcome, Outcome::MissingMode(Mode::Pretty));
    assert_eq!(seen.outcome.exit_code(), 1);
}

#[test]
fn a_listed_plan_with_every_folder_runs_in_the_order_given() {
    let seen = drive(
        &["--verbose", "--modes=run-fail,compile-fail,run-fail"],
        &["tests", "tests/compile-fail", "tests/run-fail"],
    );
    assert_eq!(
        seen.asked,
        vec![
            "tests".to_string(),
            "tests/run-fail".to_string(),
            "tests/compile-fail".to_string(),
            "tests/run-fail".to_string(),
        ]
    );
    assert_eq!(
        seen.ran,
        vec![
            config(Mode::RunFail, "tests/run-fail", true),
            config(Mode::CompileFail, "tests/compile-fail", true),
            config(Mode::RunFail, "tests/run-fail", true),
        ]
    );
    assert_eq!(seen.outcome, Outcome::Completed);
    assert_eq!(seen.outcome.exit_code(), 0);
}

#[test]
fn a_sweep_that_finds_nothing_says_so() {
    let seen = drive(&[], &["tests"]);
    assert_eq!(seen.asked.len(), 10);
    assert_eq!(seen.ran, vec![]);
    assert_eq!(seen.outcome, Outcome::NoTests);
    assert!(seen.outcome.text().contains("No tests were found"));
    assert_eq!(seen.outcome.text(), "No tests were found.\n");
    assert_eq!(seen.outcome.exit_code(), 0);
}

#[test]
fn without_the_tests_folder_nothing_is_probed() {
    let seen = drive(&[], &["tests/run-pass"]);
    assert_eq!(seen.asked, vec!["tests".to_string()]);
    assert_eq!(seen.ran, vec![]);
    assert_eq!(seen.outcome, Outcome::MissingRoot);
    assert_eq!(seen.outcome.exit_code(), 1);
    let mut text = "error: No 'tests' folder were found\n".to_string();
    text.push_str(&usage());
    assert_eq!(seen.outcome.text(), text);

    let seen = drive(&["--modes=run-pass"], &[]);
    assert_eq!(seen.asked, vec!["tests".to_string()]);
    assert_eq!(seen.ran, vec![]);
    assert_eq!(seen.outcome, Outcome::MissingRoot);
}

#[test]
fn help_asks_nothing_and_runs_nothing() {
    for args in [&["--help"][..], &["-h"][..], &["-h", "-v", "--modes=nope"][..]] {
        let seen = drive(args, &["tests", "tests/run-pass"]);
        assert_eq!(seen.asked, Vec::<String>::new());
        assert_eq!(seen.ran, vec![]);
        assert_eq!(seen.outcome, Outcome::Help);
        assert_eq!(seen.outcome.exit_code(), 0);
        assert_eq!(seen.outcome.text(), usage());
    }
}

#[test]
fn malformed_arguments_end_the_run_with_the_parsers_message() {
    let seen = drive(&["--frobnicate"], &["tests", "tests/run-pass"]);
    assert_eq!(seen.asked, Vec::<String>::new());
    assert_eq!(seen.ran, vec![]);
    assert_eq!(seen.outcome, Outcome::UsageError("Unrecognized option: 'frobnicate'".to_string()));
    assert_eq!(seen.outcome.text(), "Unrecognized option: 'frobnicate'\n");
    assert_eq!(seen.outcome.exit_code(), 1);
}

#[test]
fn a_session_opens_from_a_request() {
    let mut session = Session::open(Ok(Request::Run { verbose: true, modes: vec![Mode::Pretty] }));
    assert_eq!(session.action(), Action::CheckRoot);
    session.answer(true);
    assert_eq!(
        session.action(),
        Action::Probe { mode: Mode::Pretty, dir: "tests/pretty".to_string() }
    );
    session.answer(true);
    assert_eq!(session.action(), Action::Run(config(Mode::Pretty, "tests/pretty", true)));
    assert_eq!(session.outcome(), None);
    session.completed();
    assert_eq!(session.action(), Action::Finish);
    assert_eq!(session.outcome(), Some(&Outcome::Completed));

    let session = Session::open(Ok(Request::Help));
    assert_eq!(session.action(), Action::Finish);
    assert_eq!(session.outcome(), Some(&Outcome::Help));

    let session = Session::open(Err(ArgsError::Usage("no".to_string())));
    assert_eq!(session.outcome(), Some(&Outcome::UsageError("no".to_string())));

    let session = Session::open(Err(ArgsError::InvalidModes(vec!["x".to_string()])));
    assert_eq!(session.outcome(), Some(&Outcome::InvalidModes(vec!["x".to_string()])));
}

#[test]
fn an_answer_that_was_not_asked_for_changes_nothing() {
    let mut session = Session::open(Ok(Request::Run { verbose: false, modes: vec![Mode::RunPass] }));
    session.completed();
    assert_eq!(session.action(), Action::CheckRoot);
    session.answer(true);
    session.completed();
    assert_eq!(
        session.action(),
        Action::Probe { mode: Mode::RunPass, dir: "tests/run-pass".to_string() }
    );
    session.answer(true);
    session.answer(false);
    session.answer(true);
    assert_eq!(session.action(), Action::Run(config(Mode::RunPass, "tests/run-pass", false)));
    session.completed();
    assert_eq!(session.outcome(), Some(&Outcome::Completed));
    session.answer(false);
    session.completed();
    assert_eq!(session.outcome(), Some(&Outcome::Completed));
    assert_eq!(session.action(), Action::Finish);
}

#[test]
fn each_invalid_field_has_a_line_of_its_own() {
    let fields = vec!["a".to_string(), "".to_string(), "run pass".to_string()];
    assert_eq!(
        invalid_modes_report(&fields),
        "'a' is not a valid mode\n'' is not a valid mode\n'run pass' is not a valid mode\n"
    );
    assert_eq!(invalid_modes_report(&Vec::new()), "");
    assert_eq!(Outcome::InvalidModes(fields.clone()).text(), invalid_modes_report(&fields));
}

#[test]
fn the_missing_folder_line_names_the_mode() {
    assert_eq!(
        missing_mode_report(Mode::DebugInfoLldb),
        "Could not find 'debuginfo-lldb' folder in 'tests'. Please ensure it exists.\n"
    );
    assert_eq!(Outcome::MissingMode(Mode::RunFail).text(), missing_mode_report(Mode::RunFail));
}

#[test]
fn exit_codes_tell_failure_from_success() {
    assert_eq!(Outcome::Help.exit_code(), 0);
    assert_eq!(Outcome::InvalidModes(vec!["x".to_string()]).exit_code(), 0);
    assert_eq!(Outcome::NoTests.exit_code(), 0);
    assert_eq!(Outcome::Completed.exit_code(), 0);
    assert_eq!(Outcome::UsageError("bad".to_string()).exit_code(), 1);
    assert_eq!(Outcome::MissingRoot.exit_code(), 1);
    assert_eq!(Outcome::MissingMode(Mode::Pretty).exit_code(), 1);
}
