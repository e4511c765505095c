//! The command line is matched by clap. This module declares the two clap
//! types that the library holds and gives each clap call that it makes a
//! contract. Verus takes these contracts on trust: they say what clap's
//! source shows, nothing here proves them.

use vstd::prelude::*;

verus! {

/// `clap::Command`: a command under construction, opaque to the verifier.
#[verifier::external_type_specification]
#[verifier::external_body]
pub struct ExCommand(clap::Command);

/// `clap::ArgMatches`: what clap found on a command line, opaque to the
/// verifier.
#[verifier::external_type_specification]
#[verifier::external_body]
pub struct ExArgMatches(clap::ArgMatches);

/// An option of a command as it was declared: the id under which its value
/// is looked up, its one-letter name, its long name, and whether the command
/// line must give it. Every option takes one value.
pub struct OptionDecl {
    pub id: Seq<char>,
    pub short: char,
    pub long: Seq<char>,
    pub required: bool,
}

/// The options that `command` holds, in the order in which they were added.
pub uninterp spec fn declared(command: clap::Command) -> Seq<OptionDecl>;

/// The values that `matches` holds: for each option that was given a value,
/// the text of that value under the option's id.
pub uninterp spec fn matched(matches: clap::ArgMatches) -> Map<Seq<char>, Seq<char>>;

/// What comes of matching a command line.
pub enum Matching {
    /// The tokens name every option that is required and nothing else:
    /// `values` holds what they give, by option id.
    Found { values: Map<Seq<char>, Seq<char>> },
    /// The tokens ask for help or for the version, and clap answers with a
    /// text for the standard output.
    Answered,
    /// clap refuses the tokens, with a text for the error stream.
    Refused,
}

/// What clap finds when a command that has a version, holds `options` and
/// nothing else, matches `tokens`, the first of which names the program.
pub uninterp spec fn match_of(options: Seq<OptionDecl>, tokens: Seq<Seq<char>>) -> Matching;

/// Whether `option` can stand in a command beside the two options that clap
/// adds by itself: help, under the id `help`, as `-h` and `--help`, and the
/// version, under the id `version`, as `-V` and `--version`.
pub open spec fn usable(option: OptionDecl) -> bool {
    &&& option.id.len() > 0
    &&& option.id != "help"@
    &&& option.id != "version"@
    &&& option.short != 'h'
    &&& option.short != 'V'
    &&& option.long.len() > 0
    &&& option.long[0] != '-'
    &&& option.long != "help"@
    &&& option.long != "version"@
}

/// Whether two options can stand in one command: they differ in id, in short
/// name and in long name.
pub open spec fn apart(first: OptionDecl, second: OptionDecl) -> bool {
    &&& first.id != second.id
    &&& first.short != second.short
    &&& first.long != second.long
}

/// Whether `options` is free of the clashes on which clap panics when it
/// builds a command: every option usable, and any two of them apart.
pub open spec fn well_declared(options: Seq<OptionDecl>) -> bool {
    &&& forall|i: int| 0 <= i < options.len() ==> usable(#[trigger] options[i])
    &&& forall|i: int, j: int|
        0 <= i < j < options.len() ==> apart(#[trigger] options[i], #[trigger] options[j])
}

/// The value that `values` holds under `id`, if it holds one.
pub open spec fn lookup(values: Map<Seq<char>, Seq<char>>, id: Seq<char>) -> Option<Seq<char>> {
    if values.dom().contains(id) {
        Some(values[id])
    } else {
        None
    }
}

/// The text of an optional string.
pub open spec fn text_of(value: Option<String>) -> Option<Seq<char>> {
    match value {
        Some(text) => Some(text@),
        None => None,
    }
}

/// Calls `clap::Command::new` and gives the command its version with
/// `clap::Command::version`. The contract claims that the new command holds
/// no option yet.
#[verifier::external_body]
pub(crate) fn new_command(name: &'static str, version: &'static str) -> (command: clap::Command)
    ensures
        declared(command) == Seq::<OptionDecl>::empty(),
{
    clap::Command::new(name).version(version)
}

/// Calls `clap::Command::arg` with an argument made by `clap::Arg::new`,
/// `short`, `long` and `required`. The contract claims that the command then
/// holds one more option, the one described, after those it held. A short
/// name `-` is left out: `Arg::short` panics on it.
#[verifier::external_body]
pub(crate) fn with_option(
    command: clap::Command,
    id: &'static str,
    short: char,
    long: &'static str,
    required: bool,
) -> (extended: clap::Command)
    requires
        short != '-',
    ensures
        declared(extended) == declared(command).push(
            OptionDecl { id: id@, short, long: long@, required },
        ),
{
    command.arg(clap::Arg::new(id).short(short).long(long).required(required))
}

/// Calls `clap::Command::try_get_matches_from`, and turns the error, where
/// there is one, into two plain values: whether clap would write it to the
/// error stream (`clap::Error::use_stderr`: it would not where the tokens ask
/// for help or for the version), and the text that clap would show. The
/// contract names what was found: it claims that the values, and which of the
/// three ways the match went, depend on the options and the tokens alone. It
/// claims nothing of the text. Commands whose options clash are left out: on
/// those clap panics.
#[verifier::external_body]
pub(crate) fn matches_from(
    command: clap::Command,
    tokens: &Vec<String>,
) -> (outcome: Result<clap::ArgMatches, (bool, String)>)
    requires
        well_declared(declared(command)),
    ensures
        match outcome {
            Ok(matches) => match_of(declared(command), tokens.deep_view()) == (Matching::Found {
                values: matched(matches),
            }),
            Err((true, _)) => match_of(declared(command), tokens.deep_view()) is Refused,
            Err((false, _)) => match_of(declared(command), tokens.deep_view()) is Answered,
        },
{
    match command.try_get_matches_from(tokens) {
        Ok(matches) => Ok(matches),
        Err(error) => Err((error.use_stderr(), error.to_string())),
    }
}

/// Calls `clap::ArgMatches::try_get_one` for a `String`. The contract claims
/// that the result is the value held under `id`, and `None` where none is
/// held, which is also what becomes of an id that the command does not know.
#[verifier::external_body]
pub(crate) fn value_of(matches: &clap::ArgMatches, id: &str) -> (value: Option<String>)
    ensures
        text_of(value) == lookup(matched(*matches), id@),
{
    match matches.try_get_one::<String>(id) {
        Ok(Some(found)) => Some(found.clone()),
        _ => None,
    }
}

} // verus!
