//! The closed set of test modes and their canonical names.

use vstd::prelude::*;
use vstd::string::*;

verus! {

/// A test category. Each mode has one canonical name, which is both the
/// word that selects it on the command line and the name of its folder.
#[derive(Clone, Copy, Debug, PartialEq, Eq, Hash, Structural)]
pub enum Mode {
    CompileFail,
    ParseFail,
    RunFail,
    RunPass,
    RunPassValgrind,
    Pretty,
    DebugInfoGdb,
    DebugInfoLldb,
    Codegen,
}

/// The error for a name that stands for no mode. Holds the name.
#[derive(Clone, Debug, PartialEq, Eq)]
pub struct InvalidMode {
    pub name: String,
}

/// What is said of a name that stands for no mode.
pub open spec fn invalid_mode_message(name: Seq<char>) -> Seq<char> {
    "'"@ + name + "' is not a valid mode"@
}

/// What is said of a name that stands for no mode.
pub fn invalid_mode_report(name: &str) -> (text: String)
    ensures
        text@ == invalid_mode_message(name@),
{
    let mut text = String::from_str("'");
    text.append(name);
    text.append("' is not a valid mode");
    text
}

impl InvalidMode {
    /// What is said of the name.
    pub fn message(&self) -> (text: String)
        ensures
            text@ == invalid_mode_message(self.name@),
    {
        invalid_mode_report(self.name.as_str())
    }
}

/// Whether two strings hold the same characters.
pub fn same_text(a: &str, b: &str) -> (same: bool)
    ensures
        same == (a@ == b@),
{
    a.to_owned() == b.to_owned()
}

impl Mode {
    /// The canonical name of the mode.
    pub open spec fn name_spec(self) -> Seq<char> {
        match self {
            Mode::CompileFail => "compile-fail"@,
            Mode::ParseFail => "parse-fail"@,
            Mode::RunFail => "run-fail"@,
            Mode::RunPass => "run-pass"@,
            Mode::RunPassValgrind => "run-pass-valgrind"@,
            Mode::Pretty => "pretty"@,
            Mode::DebugInfoGdb => "debuginfo-gdb"@,
            Mode::DebugInfoLldb => "debuginfo-lldb"@,
            Mode::Codegen => "codegen"@,
        }
    }

    /// The mode that a name stands for: the one mode with that canonical
    /// name, if there is one.
    pub open spec fn from_name(name: Seq<char>) -> Option<Mode> {
        if exists|m: Mode| m.name_spec() == name {
            Some(choose|m: Mode| m.name_spec() == name)
        } else {
            None
        }
    }

    /// Every mode, in the order of a full sweep.
    pub open spec fn all() -> Seq<Mode> {
        seq![
            Mode::CompileFail,
            Mode::ParseFail,
            Mode::RunFail,
            Mode::RunPass,
            Mode::RunPassValgrind,
            Mode::Pretty,
            Mode::DebugInfoGdb,
            Mode::DebugInfoLldb,
            Mode::Codegen,
        ]
    }

    /// The canonical name of the mode.
    pub fn name(self) -> (name: &'static str)
        ensures
            name@ == self.name_spec(),
    {
        match self {
            Mode::CompileFail => "compile-fail",
            Mode::ParseFail => "parse-fail",
            Mode::RunFail => "run-fail",
            Mode::RunPass => "run-pass",
            Mode::RunPassValgrind => "run-pass-valgrind",
            Mode::Pretty => "pretty",
            Mode::DebugInfoGdb => "debuginfo-gdb",
            Mode::DebugInfoLldb => "debuginfo-lldb",
            Mode::Codegen => "codegen",
        }
    }

    /// Reads a canonical name. Names are case-sensitive, and nothing but
    /// the nine canonical names is a mode: any other string is rejected
    /// with an error that holds it.
    pub fn parse(name: &str) -> (mode: Result<Mode, InvalidMode>)
        ensures
            match mode {
                Ok(mode) => Mode::from_name(name@) == Some(mode),
                Err(error) => Mode::from_name(name@) is None && error.name@ == name@,
            },
    {
        let found = if same_text(name, "compile-fail") {
            Some(Mode::CompileFail)
        } else if same_text(name, "parse-fail") {
            Some(Mode::ParseFail)
        } else if same_text(name, "run-fail") {
            Some(Mode::RunFail)
        } else if same_text(name, "run-pass") {
            Some(Mode::RunPass)
        } else if same_text(name, "run-pass-valgrind") {
            Some(Mode::RunPassValgrind)
        } else if same_text(name, "pretty") {
            Some(Mode::Pretty)
        } else if same_text(name, "debuginfo-gdb") {
            Some(Mode::DebugInfoGdb)
        } else if same_text(name, "debuginfo-lldb") {
            Some(Mode::DebugInfoLldb)
        } else if same_text(name, "codegen") {
            Some(Mode::Codegen)
        } else {
            None
        };
        proof {
            match found {
                Some(m) => {
                    assert(m.name_spec() == name@);
                    lemma_from_name_iff(name@, m);
                },
                None => {
                    assert forall|m: Mode| m.name_spec() != name@ by {
                        match m {
                            Mode::CompileFail => {},
                            Mode::ParseFail => {},
                            Mode::RunFail => {},
                            Mode::RunPass => {},
                            Mode::RunPassValgrind => {},
                            Mode::Pretty => {},
                            Mode::DebugInfoGdb => {},
                            Mode::DebugInfoLldb => {},
                            Mode::Codegen => {},
                        }
                    }
                },
            }
        }
        match found {
            Some(mode) => Ok(mode),
            None => Err(InvalidMode { name: name.to_owned() }),
        }
    }
}

/// Every mode, in the order of a full sweep.
pub fn all_modes() -> (modes: Vec<Mode>)
    ensures
        modes@ == Mode::all(),
{
    let modes = vec![
        Mode::CompileFail,
        Mode::ParseFail,
        Mode::RunFail,
        Mode::RunPass,
        Mode::RunPassValgrind,
        Mode::Pretty,
        Mode::DebugInfoGdb,
        Mode::DebugInfoLldb,
        Mode::Codegen,
    ];
    assert(modes@ =~= Mode::all());
    modes
}

/// The length of each name, the character that tells `run-fail` from
/// `run-pass`, the only two names of one length, and that no name holds
/// a comma.
proof fn lemma_name_shape(m: Mode)
    ensures
        m.name_spec().len() == match m {
            Mode::CompileFail => 12nat,
            Mode::ParseFail => 10nat,
            Mode::RunFail => 8nat,
            Mode::RunPass => 8nat,
            Mode::RunPassValgrind => 17nat,
            Mode::Pretty => 6nat,
            Mode::DebugInfoGdb => 13nat,
            Mode::DebugInfoLldb => 14nat,
            Mode::Codegen => 7nat,
        },
        m == Mode::RunFail ==> m.name_spec()[4] == 'f',
        m == Mode::RunPass ==> m.name_spec()[4] == 'p',
        forall|i: int| 0 <= i < m.name_spec().len() ==> #[trigger] m.name_spec()[i] != ',',
{
    reveal_strlit("compile-fail");
    reveal_strlit("parse-fail");
    reveal_strlit("run-fail");
    reveal_strlit("run-pass");
    reveal_strlit("run-pass-valgrind");
    reveal_strlit("pretty");
    reveal_strlit("debuginfo-gdb");
    reveal_strlit("debuginfo-lldb");
    reveal_strlit("codegen");
}

/// No two modes share a name.
pub proof fn lemma_name_injective(a: Mode, b: Mode)
    requires
        a.name_spec() == b.name_spec(),
    ensures
        a == b,
{
    lemma_name_shape(a);
    lemma_name_shape(b);
}

/// A name stands for a mode exactly when it is that mode's canonical
/// name.
pub proof fn lemma_from_name_iff(name: Seq<char>, m: Mode)
    ensures
        Mode::from_name(name) == Some(m) <==> m.name_spec() == name,
{
    if Mode::from_name(name) is Some {
        let chosen = choose|x: Mode| x.name_spec() == name;
        if m.name_spec() == name {
            lemma_name_injective(chosen, m);
        }
    }
}

/// Reading the name of a mode gives that mode back.
pub proof fn lemma_name_round_trip(m: Mode)
    ensures
        Mode::from_name(m.name_spec()) == Some(m),
{
    lemma_from_name_iff(m.name_spec(), m);
}

/// No canonical name holds a comma, so a comma-separated list of names
/// can be taken apart again.
pub proof fn lemma_name_has_no_comma(m: Mode)
    ensures
        !m.name_spec().contains(','),
{
    lemma_name_shape(m);
}

/// A full sweep holds each of the nine modes once.
pub proof fn lemma_all_modes_once(m: Mode)
    ensures
        Mode::all().len() == 9,
        exists|i: int| 0 <= i < 9 && Mode::all()[i] == m,
        forall|i: int, j: int| 0 <= i < j < 9 ==> Mode::all()[i] != Mode::all()[j],
{
    let i: int = match m {
        Mode::CompileFail => 0,
        Mode::ParseFail => 1,
        Mode::RunFail => 2,
        Mode::RunPass => 3,
        Mode::RunPassValgrind => 4,
        Mode::Pretty => 5,
        Mode::DebugInfoGdb => 6,
        Mode::DebugInfoLldb => 7,
        Mode::Codegen => 8,
    };
    assert(Mode::all()[i] == m);
}

} // verus!
