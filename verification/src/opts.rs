//! The option parser behind the command line.
//!
//! Options are declared to and parsed by the `getopts` crate. Nothing in
//! this file is proved: each item states, without proof, what a function
//! of that crate does, and the rest of the library is verified against
//! these statements.

use vstd::prelude::*;

verus! {

/// A set of declared options: `getopts::Options`.
#[verifier::external_type_specification]
#[verifier::external_body]
pub struct ExOptions(getopts::Options);

/// What a successful parse found: `getopts::Matches`.
#[verifier::external_type_specification]
#[verifier::external_body]
pub struct ExMatches(getopts::Matches);

/// Why a parse failed: `getopts::Fail`.
#[verifier::external_type_specification]
#[verifier::external_body]
pub struct ExFail(getopts::Fail);

/// A table of options, each as its short name, its long name, its
/// description, the hint for its value, and whether it takes a value.
pub type OptionTable = Seq<(Seq<char>, Seq<char>, Seq<char>, Seq<char>, bool)>;

/// The occurrences of options on a command line, by option name: the
/// value of each occurrence in order, `None` for one without a value.
pub type Occurrences = Map<Seq<char>, Seq<Option<Seq<char>>>>;

/// The options that a set declares, in the order in which they were
/// declared.
pub uninterp spec fn declared(opts: getopts::Options) -> OptionTable;

/// Whether a set parses in the way a new set does (options and free
/// arguments in any order, long options after two dashes) and each of
/// its options may be given once or not at all, with a value or without.
pub uninterp spec fn plain(opts: getopts::Options) -> bool;

/// What a parse found, by option name: for each name that was declared,
/// short or long, the value of each occurrence on the command line, in
/// order, `None` for an occurrence without a value.
pub uninterp spec fn found(matches: getopts::Matches) -> Occurrences;

/// The message of a failure.
pub uninterp spec fn failure_text(fail: getopts::Fail) -> Seq<char>;

/// The outcome of parsing `args` against the options `table`: what was
/// found, or the message of the failure.
pub uninterp spec fn parse_outcome(table: OptionTable, args: Seq<Seq<char>>) -> Result<
    Occurrences,
    Seq<char>,
>;

/// The usage text for the options `table` under the heading `brief`.
pub uninterp spec fn usage_text(table: OptionTable, brief: Seq<char>) -> Seq<char>;

/// Names that the parser accepts for an option: a short name is empty or
/// one ASCII character, a long name is not one character long, and one
/// of the two is not empty.
pub open spec fn names_accepted(short: Seq<char>, long: Seq<char>) -> bool {
    &&& short.len() == 0 || (short.len() == 1 && (short[0] as u32) < 128)
    &&& long.len() != 1
    &&& short.len() + long.len() > 0
}

/// Whether every option of a table has names that the parser accepts.
pub open spec fn table_accepted(table: OptionTable) -> bool {
    forall|i: int| 0 <= i < table.len() ==> names_accepted((#[trigger] table[i]).0, table[i].1)
}

/// Whether a parse result knows every name of a table.
pub open spec fn names_known(table: OptionTable, result: Occurrences) -> bool {
    forall|i: int|
        0 <= i < table.len() ==> {
            &&& (#[trigger] table[i]).0.len() > 0 ==> result.dom().contains(table[i].0)
            &&& table[i].1.len() > 0 ==> result.dom().contains(table[i].1)
        }
}

/// The value of the first occurrence, if there is an occurrence and it
/// has a value.
pub open spec fn first_value(occurrences: Seq<Option<Seq<char>>>) -> Option<Seq<char>> {
    if occurrences.len() > 0 {
        occurrences[0]
    } else {
        None
    }
}

/// `getopts::Options::new`: a set that declares nothing and parses in
/// the plain way.
#[verifier::external_body]
pub(crate) fn new_options() -> (opts: getopts::Options)
    ensures
        declared(opts) == OptionTable::empty(),
        plain(opts),
{
    getopts::Options::new()
}

/// `getopts::Options::optflag`: declares, after those that the set
/// holds, an option without a value that may be given once. The call
/// panics on names that the parser does not accept; an option with no
/// name at all would make a later parse panic.
#[verifier::external_body]
pub(crate) fn add_flag(opts: &mut getopts::Options, short: &str, long: &str, desc: &str)
    requires
        names_accepted(short@, long@),
    ensures
        declared(*final(opts)) == declared(*old(opts)).push(
            (short@, long@, desc@, Seq::empty(), false),
        ),
        plain(*final(opts)) == plain(*old(opts)),
{
    opts.optflag(short, long, desc);
}

/// `getopts::Options::optopt`: declares, after those that the set holds,
/// an option that takes a value and may be given once. The call panics
/// on names that the parser does not accept; an option with no name at
/// all would make a later parse panic.
#[verifier::external_body]
pub(crate) fn add_value_option(
    opts: &mut getopts::Options,
    short: &str,
    long: &str,
    desc: &str,
    hint: &str,
)
    requires
        names_accepted(short@, long@),
    ensures
        declared(*final(opts)) == declared(*old(opts)).push((short@, long@, desc@, hint@, true)),
        plain(*final(opts)) == plain(*old(opts)),
{
    opts.optopt(short, long, desc, hint);
}

/// `getopts::Options::parse`: the outcome depends on the declared
/// options and the arguments alone. A successful parse knows every
/// declared name.
#[verifier::external_body]
pub(crate) fn parse_args(opts: &getopts::Options, args: &Vec<String>) -> (outcome: Result<
    getopts::Matches,
    getopts::Fail,
>)
    requires
        plain(*opts),
        table_accepted(declared(*opts)),
    ensures
        match outcome {
            Ok(matches) => parse_outcome(declared(*opts), args.deep_view()) matches Ok(result)
                && result == found(matches) && names_known(declared(*opts), result),
            Err(fail) => parse_outcome(declared(*opts), args.deep_view()) matches Err(text)
                && text == failure_text(fail),
        },
{
    opts.parse(args)
}

/// `getopts::Matches::opt_present`: whether the option occurred. The
/// call panics on a name that was not declared.
#[verifier::external_body]
pub(crate) fn option_present(matches: &getopts::Matches, name: &str) -> (present: bool)
    requires
        found(*matches).dom().contains(name@),
    ensures
        present == (found(*matches)[name@].len() > 0),
{
    matches.opt_present(name)
}

/// `getopts::Matches::opt_str`: the value of the option's first
/// occurrence, if it occurred with one. The call panics on a name that
/// was not declared.
#[verifier::external_body]
pub(crate) fn option_value(matches: &getopts::Matches, name: &str) -> (value: Option<String>)
    requires
        found(*matches).dom().contains(name@),
    ensures
        match value {
            Some(text) => first_value(found(*matches)[name@]) == Some(text@),
            None => first_value(found(*matches)[name@]) is None,
        },
{
    matches.opt_str(name)
}

/// `getopts::Options::usage`: the usage text depends on the declared
/// options and the heading alone.
#[verifier::external_body]
pub(crate) fn usage_of(opts: &getopts::Options, brief: &str) -> (text: String)
    requires
        plain(*opts),
    ensures
        text@ == usage_text(declared(*opts), brief@),
{
    opts.usage(brief)
}

/// The `Display` of `getopts::Fail`, through `to_string`: the message of
/// the failure.
#[verifier::external_body]
pub(crate) fn failure_message(fail: &getopts::Fail) -> (text: String)
    ensures
        text@ == failure_text(*fail),
{
    fail.to_string()
}

} // verus!
