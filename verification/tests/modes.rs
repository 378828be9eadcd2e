use cargo_compiletest::mode::{all_modes, same_text, InvalidMode, Mode};

fn invalid(name: &str) -> Result<Mode, InvalidMode> {
    Err(InvalidMode { name: name.to_string() })
}

#[test]
fn every_mode_reads_its_own_name() {
    for mode in all_modes() {
        assert_eq!(Mode::parse(mode.name()), Ok(mode));
    }
}

#[test]
fn the_sweep_holds_nine_modes_in_order() {
    let names: Vec<&str> = all_modes().into_iter().map(|m| m.name()).collect();
    assert_eq!(
        names,
        vec![
            "compile-fail",
            "parse-fail",
            "run-fail",
            "run-pass",
            "run-pass-valgrind",
            "pretty",
            "debuginfo-gdb",
            "debuginfo-lldb",
            "codegen",
        ]
    );
}

#[test]
fn each_name_reads_as_its_mode() {
    assert_eq!(Mode::parse("compile-fail"), Ok(Mode::CompileFail));
    assert_eq!(Mode::parse("parse-fail"), Ok(Mode::ParseFail));
    assert_eq!(Mode::parse("run-fail"), Ok(Mode::RunFail));
    assert_eq!(Mode::parse("run-pass"), Ok(Mode::RunPass));
    assert_eq!(Mode::parse("run-pass-valgrind"), Ok(Mode::RunPassValgrind));
    assert_eq!(Mode::parse("pretty"), Ok(Mode::Pretty));
    assert_eq!(Mode::parse("debuginfo-gdb"), Ok(Mode::DebugInfoGdb));
    assert_eq!(Mode::parse("debuginfo-lldb"), Ok(Mode::DebugInfoLldb));
    assert_eq!(Mode::parse("codegen"), Ok(Mode::Codegen));
}

#[test]
fn nothing_else_is_a_mode() {
    assert_eq!(Mode::parse(""), invalid(""));
    assert_eq!(Mode::parse("bogus-mode"), invalid("bogus-mode"));
    assert_eq!(Mode::parse("Run-Pass"), invalid("Run-Pass"));
    assert_eq!(Mode::parse("RUN-PASS"), invalid("RUN-PASS"));
    assert_eq!(Mode::parse("run-pass "), invalid("run-pass "));
    assert_eq!(Mode::parse(" run-pass"), invalid(" run-pass"));
    assert_eq!(Mode::parse("run_pass"), invalid("run_pass"));
    assert_eq!(Mode::parse("run-pas"), invalid("run-pas"));
    assert_eq!(Mode::parse("run-pass-valgrin"), invalid("run-pass-valgrin"));
    assert_eq!(Mode::parse("ui"), invalid("ui"));
    assert_eq!(Mode::parse("incremental"), invalid("incremental"));
    assert_eq!(Mode::parse("run-pass,run-fail"), invalid("run-pass,run-fail"));
}

#[test]
fn no_two_modes_share_a_name() {
    let modes = all_modes();
    for (i, a) in modes.iter().enumerate() {
        for (j, b) in modes.iter().enumerate() {
            assert_eq!(a.name() == b.name(), i == j);
        }
    }
}

#[test]
fn no_name_holds_a_comma() {
    for mode in all_modes() {
        assert!(!mode.name().contains(','));
    }
}

#[test]
fn same_text_compares_characters() {
    assert!(same_text("", ""));
    assert!(same_text("pretty", "pretty"));
    assert!(!same_text("pretty", "prett"));
    assert!(!same_text("pretty", "Pretty"));
    assert!(same_text("d\u{e9}j\u{e0}", "d\u{e9}j\u{e0}"));
    assert!(!same_text("d\u{e9}j\u{e0}", "deja"));
}

#[test]
fn the_error_says_which_name_is_not_a_mode() {
    let error = Mode::parse("bogus-mode").unwrap_err();
    assert_eq!(error.name, "bogus-mode");
    assert_eq!(error.message(), "'bogus-mode' is not a valid mode");
    assert_eq!(InvalidMode { name: String::new() }.message(), "'' is not a valid mode");
}
