//! The argument resolver: from the tokens of a command line to the
//! parameters of one run, to the answer to a request for help or for the
//! version, or to the refusal that ends the run.

use vstd::prelude::*;

use crate::error::{CipherError, ErrorKind, Failure};
use crate::key::{key_of, parse_key};
use crate::mode::{lowercase, mode_named, Mode};
use crate::options::{
    apart, declared, lookup, match_of, matches_from, new_command, text_of, usable, value_of,
    well_declared, with_option, Matching, OptionDecl,
};
use crate::text::ends_with;

verus! {

/// The parameters of a run as contracts see them.
pub struct ArgumentsView {
    pub file_name: Seq<char>,
    pub mode: Mode,
    pub key: u8,
}

/// The parameters of one run: the file to transform, the mode that the user
/// chose, and the key. The file name ends with `.txt`. Once made, the value
/// does not change.
#[derive(Debug)]
pub struct Arguments {
    file_name: String,
    mode: Mode,
    key: u8,
}

/// Whether `file_name` has the extension of the files that a run accepts.
pub open spec fn has_text_extension(file_name: Seq<char>) -> bool {
    ".txt"@.is_suffix_of(file_name)
}

/// The failure that refuses a parameter with the words `message`.
pub open spec fn refusal(message: Seq<char>) -> Failure {
    Failure { kind: ErrorKind::InvalidArguments, message }
}

/// What the three parameters read as, each as the command line gave it, or
/// `None` where it gave none. The first fault found decides: a missing file
/// name, a missing or unknown mode, a missing or unreadable key.
pub open spec fn parsed(
    file_name: Option<Seq<char>>,
    mode: Option<Seq<char>>,
    key: Option<Seq<char>>,
) -> Result<ArgumentsView, Failure> {
    if file_name is None {
        Err(refusal("error while getting filename argument"@))
    } else if mode is None {
        Err(refusal("error while getting mode argument"@))
    } else if mode_named(lowercase(mode->0)) is None {
        Err(refusal("Invalid mode argument"@))
    } else if key is None {
        Err(refusal("error while get key argument"@))
    } else if key_of(key->0) is None {
        Err(refusal("error while parsing key, expected u8 number"@))
    } else {
        Ok(
            ArgumentsView {
                file_name: file_name->0,
                mode: mode_named(lowercase(mode->0))->0,
                key: key_of(key->0)->0,
            },
        )
    }
}

/// What becomes of parameters that were read: they stand if the file name
/// has the extension, and are refused if it has not.
pub open spec fn named(values: ArgumentsView) -> Result<ArgumentsView, Failure> {
    if has_text_extension(values.file_name) {
        Ok(values)
    } else {
        Err(refusal("invalid file name. Expect *.txt"@))
    }
}

/// What the three parameters resolve to, each as the command line gave it,
/// or `None` where it gave none: they are read, and the file name is held to
/// its extension.
pub open spec fn accepted(
    file_name: Option<Seq<char>>,
    mode: Option<Seq<char>>,
    key: Option<Seq<char>>,
) -> Result<ArgumentsView, Failure> {
    match parsed(file_name, mode, key) {
        Ok(values) => named(values),
        Err(failure) => Err(failure),
    }
}

/// The resolver accepts parameters exactly when all three are given, the mode
/// is one of the two, the key fits a byte and the file name has the
/// extension; it then hands back what it was given. Whatever else it is
/// given, it refuses as invalid arguments.
pub proof fn lemma_accepted_or_refused(
    file_name: Option<Seq<char>>,
    mode: Option<Seq<char>>,
    key: Option<Seq<char>>,
)
    ensures
        accepted(file_name, mode, key) is Ok <==> {
            &&& file_name is Some
            &&& has_text_extension(file_name->0)
            &&& mode is Some
            &&& mode_named(lowercase(mode->0)) is Some
            &&& key is Some
            &&& key_of(key->0) is Some
        },
        accepted(file_name, mode, key) matches Ok(arguments) ==> {
            &&& file_name == Some(arguments.file_name)
            &&& mode_named(lowercase(mode->0)) == Some(arguments.mode)
            &&& key_of(key->0) == Some(arguments.key)
        },
        accepted(file_name, mode, key) matches Err(failure) ==> failure.kind
            == ErrorKind::InvalidArguments,
{
}

/// The options of the command line: `-f`/`--file`, `-m`/`--mode` and
/// `-k`/`--key`, each required, each with one value.
pub open spec fn command_line_options() -> Seq<OptionDecl> {
    seq![
        OptionDecl { id: "filename"@, short: 'f', long: "file"@, required: true },
        OptionDecl { id: "mode"@, short: 'm', long: "mode"@, required: true },
        OptionDecl { id: "key"@, short: 'k', long: "key"@, required: true },
    ]
}

/// The options of the command line clash neither with each other nor with
/// the options for help and for the version.
pub proof fn lemma_command_line_options_well_declared()
    ensures
        well_declared(command_line_options()),
{
    reveal_strlit("filename");
    reveal_strlit("file");
    reveal_strlit("mode");
    reveal_strlit("key");
    reveal_strlit("help");
    reveal_strlit("version");
    let options = command_line_options();
    assert("file"@[0] != "help"@[0]);
    assert("mode"@[0] != "help"@[0]);
    assert("file"@[0] != "mode"@[0]);
    assert(usable(options[0]));
    assert(usable(options[1]));
    assert(usable(options[2]));
    assert(apart(options[0], options[1]));
    assert(apart(options[0], options[2]));
    assert(apart(options[1], options[2]));
}

/// The stage at which the resolver refuses a command line.
#[derive(Clone, Copy, Debug, PartialEq, Eq, Structural)]
pub enum Stage {
    /// The tokens do not match the options: clap refuses them, in its own
    /// words.
    Tokens,
    /// The tokens match, and the value of a parameter cannot be read.
    Values,
    /// The parameters were read, and the file name lacks the extension.
    FileName,
}

/// What comes of resolving a command line.
#[derive(Debug)]
pub enum Resolution {
    /// The parameters of a run.
    Run { arguments: Arguments },
    /// The command line asked for help or for the version; `text` answers
    /// it.
    Answer { text: String },
    /// The command line is refused, at `stage`.
    Refusal { error: CipherError, stage: Stage },
}

/// A resolution as contracts see it.
pub enum ResolutionView {
    Run { arguments: ArgumentsView },
    Answer { text: Seq<char> },
    Refusal { failure: Failure, stage: Stage },
}

/// What values that clap found resolve to: a refusal where one of them
/// cannot be read, a refusal where the file name lacks the extension, and
/// the parameters of a run otherwise.
pub open spec fn resolution_of(values: Map<Seq<char>, Seq<char>>) -> ResolutionView {
    match parsed(lookup(values, "filename"@), lookup(values, "mode"@), lookup(values, "key"@)) {
        Err(failure) => ResolutionView::Refusal { failure, stage: Stage::Values },
        Ok(read) => match named(read) {
            Err(failure) => ResolutionView::Refusal { failure, stage: Stage::FileName },
            Ok(arguments) => ResolutionView::Run { arguments },
        },
    }
}

/// Whether `outcome` is what a command line resolves to once clap has
/// matched it as `found`. The text of clap's answer and the message of its
/// refusal are clap's own and are left open here.
pub open spec fn resolved(found: Matching, outcome: ResolutionView) -> bool {
    match found {
        Matching::Found { values } => outcome == resolution_of(values),
        Matching::Answered => outcome is Answer,
        Matching::Refused => {
            &&& outcome is Refusal
            &&& outcome->stage == Stage::Tokens
            &&& outcome->failure.kind == ErrorKind::InvalidArguments
        },
    }
}

/// A result of the resolver as contracts see it.
pub open spec fn outcome_view(outcome: Result<Arguments, CipherError>) -> Result<
    ArgumentsView,
    Failure,
> {
    match outcome {
        Ok(arguments) => Ok(arguments@),
        Err(error) => Err(error@),
    }
}

impl View for Resolution {
    type V = ResolutionView;

    open spec fn view(&self) -> ResolutionView {
        match *self {
            Resolution::Run { arguments } => ResolutionView::Run { arguments: arguments@ },
            Resolution::Answer { text } => ResolutionView::Answer { text: text@ },
            Resolution::Refusal { error, stage } => ResolutionView::Refusal {
                failure: error@,
                stage,
            },
        }
    }
}

impl View for Arguments {
    type V = ArgumentsView;

    closed spec fn view(&self) -> ArgumentsView {
        ArgumentsView { file_name: self.file_name@, mode: self.mode, key: self.key }
    }
}

impl Arguments {
    #[verifier::type_invariant]
    spec fn well_formed(self) -> bool {
        has_text_extension(self.file_name@)
    }

    /// Resolves the tokens of a command line, the first of which names the
    /// program. The tokens are matched by clap against the three options of
    /// `command_line_options`, with `-h`/`--help` and `-V`/`--version`
    /// beside them; the values that it finds are read, and the file name is
    /// held to its extension.
    pub fn new(tokens: &Vec<String>) -> (outcome: Resolution)
        ensures
            resolved(match_of(command_line_options(), tokens.deep_view()), outcome@),
    {
        let command = new_command("xor_cipher", "0.1.0");
        let command = with_option(command, "filename", 'f', "file", true);
        let command = with_option(command, "mode", 'm', "mode", true);
        let command = with_option(command, "key", 'k', "key", true);
        proof {
            assert(declared(command) == command_line_options());
            lemma_command_line_options_well_declared();
        }
        match matches_from(command, tokens) {
            Ok(matches) => {
                let file_name = value_of(&matches, "filename");
                let mode = value_of(&matches, "mode");
                let key = value_of(&matches, "key");
                match parse_values(file_name, mode, key) {
                    Ok((file_name, mode, key)) => match check_name(file_name, mode, key) {
                        Ok(arguments) => Resolution::Run { arguments },
                        Err(error) => Resolution::Refusal { error, stage: Stage::FileName },
                    },
                    Err(error) => Resolution::Refusal { error, stage: Stage::Values },
                }
            },
            Err((true, message)) => Resolution::Refusal {
                error: CipherError { kind: ErrorKind::InvalidArguments, message },
                stage: Stage::Tokens,
            },
            Err((false, text)) => Resolution::Answer { text },
        }
    }

    /// Resolves the three parameters, each as the command line gave it, or
    /// `None` where it gave none.
    pub fn from_values(
        file_name: Option<String>,
        mode: Option<String>,
        key: Option<String>,
    ) -> (outcome: Result<Arguments, CipherError>)
        ensures
            outcome_view(outcome) == accepted(text_of(file_name), text_of(mode), text_of(key)),
    {
        match parse_values(file_name, mode, key) {
            Ok((file_name, mode, key)) => check_name(file_name, mode, key),
            Err(error) => Err(error),
        }
    }

    /// The path of the file to transform. It ends with `.txt`.
    pub fn file_name(&self) -> (file_name: &str)
        ensures
            file_name@ == self@.file_name,
            has_text_extension(file_name@),
    {
        proof {
            use_type_invariant(self);
        }
        self.file_name.as_str()
    }

    /// The mode that the user chose.
    pub fn mode(&self) -> (mode: Mode)
        ensures
            mode == self@.mode,
    {
        self.mode
    }

    /// The key of the mask.
    pub fn key(&self) -> (key: u8)
        ensures
            key == self@.key,
    {
        self.key
    }
}

/// The parameters that were read, as contracts see them.
spec fn read_view(
    outcome: Result<(String, Mode, u8), CipherError>,
) -> Result<ArgumentsView, Failure> {
    match outcome {
        Ok(values) => Ok(ArgumentsView { file_name: values.0@, mode: values.1, key: values.2 }),
        Err(error) => Err(error@),
    }
}

/// Reads the three parameters: the file name as it is, the mode and the key
/// from their texts.
fn parse_values(
    file_name: Option<String>,
    mode: Option<String>,
    key: Option<String>,
) -> (outcome: Result<(String, Mode, u8), CipherError>)
    ensures
        read_view(outcome) == parsed(text_of(file_name), text_of(mode), text_of(key)),
{
    let file_name = match file_name {
        Some(file_name) => file_name,
        None => {
            return Err(
                CipherError::new(
                    ErrorKind::InvalidArguments,
                    "error while getting filename argument",
                ),
            );
        },
    };
    let mode = match mode {
        Some(mode) => mode,
        None => {
            return Err(
                CipherError::new(ErrorKind::InvalidArguments, "error while getting mode argument"),
            );
        },
    };
    let mode = match Mode::from_str(mode.as_str()) {
        Ok(mode) => mode,
        Err(_) => {
            return Err(CipherError::new(ErrorKind::InvalidArguments, "Invalid mode argument"));
        },
    };
    let key = match key {
        Some(key) => key,
        None => {
            return Err(
                CipherError::new(ErrorKind::InvalidArguments, "error while get key argument"),
            );
        },
    };
    let key = match parse_key(key.as_str()) {
        Some(key) => key,
        None => {
            return Err(
                CipherError::new(
                    ErrorKind::InvalidArguments,
                    "error while parsing key, expected u8 number",
                ),
            );
        },
    };
    Ok((file_name, mode, key))
}

/// Holds the file name to its extension and makes the parameters of a run.
fn check_name(file_name: String, mode: Mode, key: u8) -> (outcome: Result<Arguments, CipherError>)
    ensures
        outcome_view(outcome) == named(ArgumentsView { file_name: file_name@, mode, key }),
{
    if !ends_with(file_name.as_str(), ".txt") {
        return Err(
            CipherError::new(ErrorKind::InvalidArguments, "invalid file name. Expect *.txt"),
        );
    }
    Ok(Arguments { file_name, mode, key })
}

} // verus!
