//! The command line: its options, its usage text, and what a list of
//! arguments asks for.

use vstd::prelude::*;
use vstd::string::*;
use crate::fields::{
    comma_fields, comma_joined, lemma_fields_not_empty, lemma_fields_of_joined, split_commas,
    texts,
};
use crate::mode::{lemma_from_name_iff, lemma_name_has_no_comma, lemma_name_round_trip, Mode};
use crate::opts::{
    add_flag, add_value_option, declared, failure_message, first_value, names_accepted,
    new_options, option_present, option_value, parse_args, parse_outcome, plain, table_accepted,
    usage_of, usage_text, Occurrences, OptionTable,
};

verus! {

/// The heading of the usage text.
pub const USAGE: &'static str =
    "Execute the compiletest subcommand\n\nUsage:\n    cargo compiletest [<args>...]";

/// What follows the list of options in the usage text.
pub const HELPMSG: &'static str =
    "This utility is useful for testing negative cases, ie cases that are expected\nto not compile or run successfully.\n\nIt requires a 'tests' folder and a separate folder for each mode.";

/// What a command line asks for.
#[derive(Clone, Debug, PartialEq, Eq)]
pub enum Request {
    /// Show the usage text and do nothing else.
    Help,
    /// Run the listed modes, or every mode that has a folder where the
    /// list is empty.
    Run { verbose: bool, modes: Vec<Mode> },
}

/// Why a command line asks for nothing.
#[derive(Clone, Debug, PartialEq, Eq)]
pub enum ArgsError {
    /// The arguments are malformed: an unknown option, a missing value,
    /// an option given twice. Holds the parser's message, which names
    /// the option.
    Usage(String),
    /// The list of modes holds fields that name no mode. Holds each such
    /// field, in the order of the list.
    InvalidModes(Vec<String>),
}

/// A [`Request`] as a mathematical value.
pub ghost enum RequestView {
    Help,
    Run { verbose: bool, modes: Seq<Mode> },
}

/// An [`ArgsError`] as a mathematical value.
pub ghost enum ArgsErrorView {
    Usage(Seq<char>),
    InvalidModes(Seq<Seq<char>>),
}

impl View for Request {
    type V = RequestView;

    open spec fn view(&self) -> RequestView {
        match self {
            Request::Help => RequestView::Help,
            Request::Run { verbose, modes } => RequestView::Run {
                verbose: *verbose,
                modes: modes@,
            },
        }
    }
}

impl View for ArgsError {
    type V = ArgsErrorView;

    open spec fn view(&self) -> ArgsErrorView {
        match self {
            ArgsError::Usage(text) => ArgsErrorView::Usage(text@),
            ArgsError::InvalidModes(fields) => ArgsErrorView::InvalidModes(texts(fields@)),
        }
    }
}

/// The view of what `handle_args` and `request_from` return.
pub open spec fn handled_view(handled: Result<Request, ArgsError>) -> Result<
    RequestView,
    ArgsErrorView,
> {
    match handled {
        Ok(request) => Ok(request@),
        Err(error) => Err(error@),
    }
}

/// The options of the command line, as the parser holds them.
pub open spec fn option_table() -> OptionTable {
    seq![
        ("v"@, "verbose"@, "Use verbose output"@, Seq::empty(), false),
        ("h"@, "help"@, "Print this help message and exit"@, Seq::empty(), false),
        (
            "m"@,
            "modes"@,
            "Specify a comma-separated list of modes  to run (default all)"@,
            "MODES"@,
            true,
        ),
    ]
}

/// The whole usage text: the heading and the options as the parser lays
/// them out, then the help message on a line of its own.
pub open spec fn usage_spec() -> Seq<char> {
    usage_text(option_table(), USAGE@) + "\n"@ + HELPMSG@
}

/// Whether a field of a mode list names no mode.
pub open spec fn names_no_mode(field: Seq<char>) -> bool {
    Mode::from_name(field) is None
}

/// The fields that name no mode, in their order.
pub open spec fn invalid_fields(fields: Seq<Seq<char>>) -> Seq<Seq<char>> {
    fields.filter(|field: Seq<char>| names_no_mode(field))
}

/// The mode that each field names, in the order of the fields.
pub open spec fn named_modes(fields: Seq<Seq<char>>) -> Seq<Mode> {
    Seq::new(fields.len(), |i: int| Mode::from_name(fields[i]).unwrap())
}

/// What a comma-separated list of mode names stands for: the modes that
/// its fields name, one for each field and in their order, where every
/// field names a mode; else the fields that name none.
pub open spec fn mode_list(list: Seq<char>) -> Result<Seq<Mode>, Seq<Seq<char>>> {
    let fields = comma_fields(list);
    if invalid_fields(fields).len() == 0 {
        Ok(named_modes(fields))
    } else {
        Err(invalid_fields(fields))
    }
}

/// The canonical names of the modes, in their order.
pub open spec fn names_of(modes: Seq<Mode>) -> Seq<Seq<char>> {
    Seq::new(modes.len(), |i: int| modes[i].name_spec())
}

/// A valid list stands for exactly the modes that its fields name: one
/// mode for each field, in the order of the fields, so that a name given
/// twice stands for its mode twice.
pub proof fn lemma_valid_list(list: Seq<char>)
    requires
        mode_list(list) is Ok,
    ensures
        mode_list(list) == Ok::<Seq<Mode>, Seq<Seq<char>>>(named_modes(comma_fields(list))),
        named_modes(comma_fields(list)).len() == comma_fields(list).len(),
        comma_fields(list).len() > 0,
        names_of(named_modes(comma_fields(list))) == comma_fields(list),
{
    let fields = comma_fields(list);
    let modes = named_modes(fields);
    lemma_fields_not_empty(list);
    assert forall|i: int| 0 <= i < fields.len() implies modes[i].name_spec() == fields[i] by {
        if names_no_mode(fields[i]) {
            fields.lemma_filter_contains(|field: Seq<char>| names_no_mode(field), i);
        }
        lemma_from_name_iff(fields[i], modes[i]);
    }
    assert(names_of(modes) =~= fields);
}

/// A list with a field that names no mode stands for no modes at all.
/// What it gives instead holds every field that names no mode, and no
/// other field.
pub proof fn lemma_invalid_list(list: Seq<char>)
    requires
        mode_list(list) is Err,
    ensures
        mode_list(list) == Err::<Seq<Mode>, Seq<Seq<char>>>(invalid_fields(comma_fields(list))),
        invalid_fields(comma_fields(list)).len() > 0,
        forall|i: int|
            0 <= i < comma_fields(list).len() && names_no_mode(#[trigger] comma_fields(list)[i])
                ==> invalid_fields(comma_fields(list)).contains(comma_fields(list)[i]),
        forall|j: int|
            0 <= j < invalid_fields(comma_fields(list)).len() ==> {
                &&& names_no_mode(#[trigger] invalid_fields(comma_fields(list))[j])
                &&& comma_fields(list).contains(invalid_fields(comma_fields(list))[j])
            },
{
    let fields = comma_fields(list);
    let unknown = |field: Seq<char>| names_no_mode(field);
    let reported = invalid_fields(fields);
    assert forall|i: int| 0 <= i < fields.len() && names_no_mode(
        #[trigger] fields[i],
    ) implies reported.contains(fields[i]) by {
        fields.lemma_filter_contains(unknown, i);
    }
    assert forall|j: int| 0 <= j < reported.len() implies names_no_mode(#[trigger] reported[j])
        && fields.contains(reported[j]) by {
        fields.lemma_filter_pred(unknown, j);
        assert(reported.contains(reported[j]));
        fields.lemma_filter_contains_rev(unknown, reported[j]);
    }
}

/// The names of one mode or more, written as a list, stand for exactly
/// those modes.
pub proof fn lemma_names_round_trip(modes: Seq<Mode>)
    requires
        modes.len() > 0,
    ensures
        mode_list(comma_joined(names_of(modes))) == Ok::<Seq<Mode>, Seq<Seq<char>>>(modes),
{
    let names = names_of(modes);
    let unknown = |field: Seq<char>| names_no_mode(field);
    assert forall|i: int| 0 <= i < names.len() implies !(#[trigger] names[i]).contains(',') by {
        lemma_name_has_no_comma(modes[i]);
    }
    lemma_fields_of_joined(names);
    assert forall|i: int| 0 <= i < names.len() implies Mode::from_name(#[trigger] names[i])
        == Some(modes[i]) by {
        lemma_name_round_trip(modes[i]);
    }
    let reported = invalid_fields(names);
    if reported.len() > 0 {
        names.lemma_filter_pred(unknown, 0);
        assert(reported.contains(reported[0]));
        names.lemma_filter_contains_rev(unknown, reported[0]);
        let i = choose|i: int| 0 <= i < names.len() && names[i] == reported[0];
        assert(Mode::from_name(names[i]) == Some(modes[i]));
    }
    assert(named_modes(names) =~= modes);
}

/// What the flags of a command line ask for. A call for help wins over
/// everything else; then a list of modes must be valid; without a list
/// no mode is requested.
pub open spec fn request_spec(help: bool, verbose: bool, modes: Option<Seq<char>>) -> Result<
    RequestView,
    ArgsErrorView,
> {
    if help {
        Ok(RequestView::Help)
    } else {
        match modes {
            None => Ok(RequestView::Run { verbose, modes: Seq::empty() }),
            Some(list) => match mode_list(list) {
                Ok(modes) => Ok(RequestView::Run { verbose, modes }),
                Err(fields) => Err(ArgsErrorView::InvalidModes(fields)),
            },
        }
    }
}

/// What the outcome of a parse asks for: a failure is a usage error with
/// the parser's message; else the flags `h`, `v` and `m` decide.
pub open spec fn handled_spec(
    outcome: Result<Occurrences, Seq<char>>,
) -> Result<RequestView, ArgsErrorView> {
    match outcome {
        Err(text) => Err(ArgsErrorView::Usage(text)),
        Ok(result) => request_spec(
            result["h"@].len() > 0,
            result["v"@].len() > 0,
            first_value(result["m"@]),
        ),
    }
}

/// The options of the command line: `-v`/`--verbose`, `-h`/`--help` and
/// `-m`/`--modes` with its list.
pub fn options() -> (opts: getopts::Options)
    ensures
        declared(opts) == option_table(),
        plain(opts),
{
    proof {
        reveal_strlit("v");
        reveal_strlit("verbose");
        reveal_strlit("h");
        reveal_strlit("help");
        reveal_strlit("m");
        reveal_strlit("modes");
    }
    let mut opts = new_options();
    add_flag(&mut opts, "v", "verbose", "Use verbose output");
    add_flag(&mut opts, "h", "help", "Print this help message and exit");
    add_value_option(
        &mut opts,
        "m",
        "modes",
        "Specify a comma-separated list of modes  to run (default all)",
        "MODES",
    );
    assert(declared(opts) =~= option_table());
    opts
}

/// Every option of the command line has names that the parser accepts.
proof fn lemma_option_table_accepted()
    ensures
        table_accepted(option_table()),
        option_table().len() == 3,
        option_table()[0].0 == "v"@,
        option_table()[1].0 == "h"@,
        option_table()[2].0 == "m"@,
        "v"@.len() > 0,
        "h"@.len() > 0,
        "m"@.len() > 0,
{
    reveal_strlit("v");
    reveal_strlit("verbose");
    reveal_strlit("h");
    reveal_strlit("help");
    reveal_strlit("m");
    reveal_strlit("modes");
    assert(names_accepted("v"@, "verbose"@));
    assert(names_accepted("h"@, "help"@));
    assert(names_accepted("m"@, "modes"@));
}

/// The usage text.
pub fn usage() -> (text: String)
    ensures
        text@ == usage_spec(),
{
    let opts = options();
    let mut text = usage_of(&opts, USAGE);
    text.append("\n");
    text.append(HELPMSG);
    text
}

/// Reads a comma-separated list of mode names.
pub fn parse_mode_list(list: &str) -> (modes: Result<Vec<Mode>, Vec<String>>)
    ensures
        match modes {
            Ok(modes) => mode_list(list@) == Ok::<Seq<Mode>, Seq<Seq<char>>>(modes@),
            Err(fields) => mode_list(list@) == Err::<Seq<Mode>, Seq<Seq<char>>>(texts(fields@)),
        },
{
    let fields = split_commas(list);
    let mut modes: Vec<Mode> = Vec::new();
    let mut invalid: Vec<String> = Vec::new();
    let mut i: usize = 0;
    assert(comma_fields(list@).take(0) =~= Seq::empty());
    assert(texts(invalid@) =~= invalid_fields(Seq::empty())) by {
        reveal(Seq::filter);
    }
    while i < fields.len()
        invariant
            i <= fields.len(),
            texts(fields@) == comma_fields(list@),
            texts(invalid@) == invalid_fields(comma_fields(list@).take(i as int)),
            invalid.len() == 0 ==> modes@ == named_modes(comma_fields(list@).take(i as int)),
        decreases fields.len() - i,
    {
        let ghost all = comma_fields(list@);
        let ghost before = all.take(i as int);
        let found = Mode::parse(fields[i].as_str());
        proof {
            assert(fields[i as int]@ == all[i as int]);
            assert(all.take(i + 1) =~= before.push(all[i as int]));
            before.lemma_filter_push(all[i as int], |field: Seq<char>| names_no_mode(field));
        }
        match found {
            Ok(mode) => {
                modes.push(mode);
                assert(invalid.len() == 0 ==> modes@ =~= named_modes(all.take(i + 1)));
            },
            Err(error) => {
                invalid.push(error.name);
                assert(texts(invalid@) =~= invalid_fields(before).push(all[i as int]));
            },
        }
        i += 1;
    }
    assert(comma_fields(list@).take(i as int) =~= comma_fields(list@));
    if invalid.len() == 0 {
        assert(texts(invalid@).len() == 0);
        Ok(modes)
    } else {
        assert(texts(invalid@).len() > 0);
        Err(invalid)
    }
}

/// Decides what the flags of a command line ask for.
pub fn request_from(help: bool, verbose: bool, modes: Option<&str>) -> (request: Result<
    Request,
    ArgsError,
>)
    ensures
        handled_view(request) == request_spec(
            help,
            verbose,
            match modes {
                Some(list) => Some(list@),
                None => None,
            },
        ),
{
    if help {
        return Ok(Request::Help);
    }
    match modes {
        None => Ok(Request::Run { verbose, modes: Vec::new() }),
        Some(list) => match parse_mode_list(list) {
            Ok(modes) => Ok(Request::Run { verbose, modes }),
            Err(fields) => Err(ArgsError::InvalidModes(fields)),
        },
    }
}

/// Reads the arguments of the command line, the program's own name left
/// out, and decides what they ask for.
pub fn handle_args(args: &Vec<String>) -> (request: Result<Request, ArgsError>)
    ensures
        handled_view(request) == handled_spec(parse_outcome(option_table(), args.deep_view())),
{
    let opts = options();
    proof {
        lemma_option_table_accepted();
    }
    match parse_args(&opts, args) {
        Err(fail) => Err(ArgsError::Usage(failure_message(&fail))),
        Ok(matches) => {
            let help = option_present(&matches, "h");
            let verbose = option_present(&matches, "v");
            let list = option_value(&matches, "m");
            match list {
                Some(list) => request_from(help, verbose, Some(list.as_str())),
                None => request_from(help, verbose, None),
            }
        },
    }
}

} // verus!
