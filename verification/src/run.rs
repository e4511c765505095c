//! The sequencing of one run. The library decides; a driver outside it does
//! the work on the file system. In every state the run asks the driver for
//! one action, and the event that the driver reports back takes the run to
//! its next state.
//!
//! `ParsingArgs` → `CheckingFile` → `ReadingFile` → `WritingFile` → `Done`,
//! and from each of them to `Failed`. The bytes are transformed in the step
//! that leaves `ReadingFile`. A command line that asks for help or for the
//! version takes the run from `ParsingArgs` to `Answered`.

use vstd::prelude::*;

use crate::arguments::{
    has_text_extension, Arguments, ArgumentsView, Resolution, ResolutionView, Stage,
};
use crate::cipher::{apply, lemma_second_run_restores, masked, xor_mask};
use crate::error::{
    CipherError, ErrorKind, Failure, EXIT_EMPTY_INPUT, EXIT_INVALID_ARGUMENTS, EXIT_SUCCESS,
};

verus! {

/// Where a run stands.
#[derive(Debug)]
pub enum RunState {
    /// The command line has not been resolved yet.
    ParsingArgs,
    /// The parameters are valid; whether the file exists is not known yet.
    CheckingFile { arguments: Arguments },
    /// The file exists and is to be read.
    ReadingFile { arguments: Arguments },
    /// `data`, the transformed contents, is to be written back.
    WritingFile { arguments: Arguments, data: Vec<u8> },
    /// The file holds the transformed contents.
    Done,
    /// The command line asked for help or for the version, and `text`
    /// answers it. No file is touched.
    Answered { text: String },
    /// The run has failed with `error`, whose message is what is shown.
    Failed { error: CipherError },
}

/// What the driver reports back.
#[derive(Debug)]
pub enum Event {
    /// The command line was resolved, with this outcome.
    Resolved { resolved: Resolution },
    /// Whether a regular file exists at the path.
    FileChecked { exists: bool },
    /// The file was read: its contents, or the words of the failure.
    FileRead { read: Result<Vec<u8>, String> },
    /// The file was written, or the words of the failure.
    FileWritten { written: Result<(), String> },
}

/// What the run asks of the driver.
#[derive(Debug)]
pub enum Action<'a> {
    /// Resolve the command line and report `Event::Resolved`.
    Resolve,
    /// Look whether a regular file exists at `path` and report
    /// `Event::FileChecked`.
    CheckFile { path: &'a str },
    /// Read the whole file at `path` and report `Event::FileRead`.
    ReadFile { path: &'a str },
    /// Replace the contents of the file at `path` by `data` and report
    /// `Event::FileWritten`.
    WriteFile { path: &'a str, data: &'a Vec<u8> },
    /// Show `text` on the standard output and end the process with the code
    /// of success.
    Answer { text: &'a str },
    /// Show `message`, if any, on the error stream and end the process with
    /// `code`.
    Exit { code: i32, message: Option<&'a str> },
}

/// A state as contracts see it.
pub enum StateView {
    ParsingArgs,
    CheckingFile { arguments: ArgumentsView },
    ReadingFile { arguments: ArgumentsView },
    WritingFile { arguments: ArgumentsView, data: Seq<u8> },
    Done,
    Answered { text: Seq<char> },
    Failed { failure: Failure },
}

/// An event as contracts see it.
pub enum EventView {
    Resolved { resolved: ResolutionView },
    FileChecked { exists: bool },
    FileRead { read: Result<Seq<u8>, Seq<char>> },
    FileWritten { written: Result<(), Seq<char>> },
}

/// An action as contracts see it.
pub enum ActionView {
    Resolve,
    CheckFile { path: Seq<char> },
    ReadFile { path: Seq<char> },
    WriteFile { path: Seq<char>, data: Seq<u8> },
    Answer { text: Seq<char> },
    Exit { code: int, message: Option<Seq<char>> },
}

impl View for RunState {
    type V = StateView;

    open spec fn view(&self) -> StateView {
        match *self {
            RunState::ParsingArgs => StateView::ParsingArgs,
            RunState::CheckingFile { arguments } => StateView::CheckingFile {
                arguments: arguments@,
            },
            RunState::ReadingFile { arguments } => StateView::ReadingFile { arguments: arguments@ },
            RunState::WritingFile { arguments, data } => StateView::WritingFile {
                arguments: arguments@,
                data: data@,
            },
            RunState::Done => StateView::Done,
            RunState::Answered { text } => StateView::Answered { text: text@ },
            RunState::Failed { error } => StateView::Failed { failure: error@ },
        }
    }
}

impl View for Event {
    type V = EventView;

    open spec fn view(&self) -> EventView {
        match *self {
            Event::Resolved { resolved } => EventView::Resolved { resolved: resolved@ },
            Event::FileChecked { exists } => EventView::FileChecked { exists },
            Event::FileRead { read } => EventView::FileRead {
                read: match read {
                    Ok(bytes) => Ok(bytes@),
                    Err(detail) => Err(detail@),
                },
            },
            Event::FileWritten { written } => EventView::FileWritten {
                written: match written {
                    Ok(_) => Ok(()),
                    Err(detail) => Err(detail@),
                },
            },
        }
    }
}

impl<'a> View for Action<'a> {
    type V = ActionView;

    open spec fn view(&self) -> ActionView {
        match *self {
            Action::Resolve => ActionView::Resolve,
            Action::CheckFile { path } => ActionView::CheckFile { path: path@ },
            Action::ReadFile { path } => ActionView::ReadFile { path: path@ },
            Action::WriteFile { path, data } => ActionView::WriteFile { path: path@, data: data@ },
            Action::Answer { text } => ActionView::Answer { text: text@ },
            Action::Exit { code, message } => ActionView::Exit {
                code: code as int,
                message: match message {
                    Some(text) => Some(text@),
                    None => None,
                },
            },
        }
    }
}

/// The failure of a run whose path leads to no regular file.
pub open spec fn file_not_found() -> Failure {
    Failure { kind: ErrorKind::FileNotFound, message: "file not found."@ }
}

/// The failure of a run whose file holds no bytes.
pub open spec fn empty_input() -> Failure {
    Failure { kind: ErrorKind::EmptyInput, message: "input file is empty."@ }
}

/// The failure of a run that could not read its file; `detail` is what the
/// driver reported.
pub open spec fn read_failure(detail: Seq<char>) -> Failure {
    Failure { kind: ErrorKind::IoReadFailure, message: "error while read from file: "@ + detail }
}

/// The failure of a run that could not write its file; `detail` is what the
/// driver reported.
pub open spec fn write_failure(detail: Seq<char>) -> Failure {
    Failure { kind: ErrorKind::IoWriteFailure, message: "failed to write to file: "@ + detail }
}

/// A refusal of the command line as it is shown. Where the value of a
/// parameter could not be read, the message stands after the words
/// `problem parsing arguments: `; a refusal by clap and a file name without
/// the extension are shown as they are.
pub open spec fn shown(failure: Failure, stage: Stage) -> Failure {
    if stage == Stage::Values {
        Failure { kind: failure.kind, message: "problem parsing arguments: "@ + failure.message }
    } else {
        failure
    }
}

/// The state that follows `state` on `event`. An event that answers no
/// request of `state` leaves it where it is.
pub open spec fn next_state(state: StateView, event: EventView) -> StateView {
    match (state, event) {
        (
            StateView::ParsingArgs,
            EventView::Resolved { resolved: ResolutionView::Run { arguments } },
        ) => { StateView::CheckingFile { arguments } },
        (
            StateView::ParsingArgs,
            EventView::Resolved { resolved: ResolutionView::Answer { text } },
        ) => { StateView::Answered { text } },
        (
            StateView::ParsingArgs,
            EventView::Resolved { resolved: ResolutionView::Refusal { failure, stage } },
        ) => { StateView::Failed { failure: shown(failure, stage) } },
        (StateView::CheckingFile { arguments }, EventView::FileChecked { exists }) => {
            if exists {
                StateView::ReadingFile { arguments }
            } else {
                StateView::Failed { failure: file_not_found() }
            }
        },
        (StateView::ReadingFile { arguments }, EventView::FileRead { read: Ok(bytes) }) => {
            if bytes.len() == 0 {
                StateView::Failed { failure: empty_input() }
            } else {
                StateView::WritingFile {
                    arguments,
                    data: masked(arguments.mode, bytes, arguments.key),
                }
            }
        },
        (StateView::ReadingFile { .. }, EventView::FileRead { read: Err(detail) }) => {
            StateView::Failed { failure: read_failure(detail) }
        },
        (StateView::WritingFile { .. }, EventView::FileWritten { written: Ok(_) }) => {
            StateView::Done
        },
        (StateView::WritingFile { .. }, EventView::FileWritten { written: Err(detail) }) => {
            StateView::Failed { failure: write_failure(detail) }
        },
        _ => state,
    }
}

/// What a run in `state` asks of the driver.
pub open spec fn requested(state: StateView) -> ActionView {
    match state {
        StateView::ParsingArgs => ActionView::Resolve,
        StateView::CheckingFile { arguments } => ActionView::CheckFile {
            path: arguments.file_name,
        },
        StateView::ReadingFile { arguments } => ActionView::ReadFile { path: arguments.file_name },
        StateView::WritingFile { arguments, data } => ActionView::WriteFile {
            path: arguments.file_name,
            data,
        },
        StateView::Done => ActionView::Exit { code: EXIT_SUCCESS as int, message: None },
        StateView::Answered { text } => ActionView::Answer { text },
        StateView::Failed { failure } => ActionView::Exit {
            code: failure.kind.code(),
            message: Some(failure.message),
        },
    }
}

/// Whether a run in `state` is over.
pub open spec fn finished(state: StateView) -> bool {
    state is Done || state is Answered || state is Failed
}

/// How far a run has come: the number of steps that lie behind `state` on
/// the way from `ParsingArgs` to `Done`.
pub open spec fn progress(state: StateView) -> int {
    match state {
        StateView::ParsingArgs => 0,
        StateView::CheckingFile { .. } => 1,
        StateView::ReadingFile { .. } => 2,
        StateView::WritingFile { .. } => 3,
        StateView::Done => 4,
        StateView::Answered { .. } => 4,
        StateView::Failed { .. } => 4,
    }
}

/// A step leaves the run where it is, takes it one stage further, fails it,
/// or, from `ParsingArgs` alone, answers a request for help or the version:
/// no stage is skipped and none comes twice. The parameters stay the same
/// from stage to stage.
pub proof fn lemma_steps_go_forward(state: StateView, event: EventView)
    ensures
        ({
            let next = next_state(state, event);
            ||| next == state
            ||| next is Failed && !finished(state)
            ||| next is Answered && state is ParsingArgs
            ||| progress(next) == progress(state) + 1 && next !is Failed && next !is Answered
        }),
        state is CheckingFile && next_state(state, event) is ReadingFile ==> next_state(
            state,
            event,
        )->ReadingFile_arguments == state->CheckingFile_arguments,
        state is ReadingFile && next_state(state, event) is WritingFile ==> next_state(
            state,
            event,
        )->WritingFile_arguments == state->ReadingFile_arguments,
{
}

/// A command line that is refused fails the run at once, with the kind of
/// the refusal and so with its exit code. What is shown is the message of the
/// refusal: after the words `problem parsing arguments: ` where the value of
/// a parameter could not be read, and as it is otherwise.
pub proof fn lemma_refusals_fail_the_run(failure: Failure, stage: Stage)
    ensures
        ({
            let next = next_state(
                StateView::ParsingArgs,
                EventView::Resolved { resolved: ResolutionView::Refusal { failure, stage } },
            );
            &&& next is Failed
            &&& next->failure.kind == failure.kind
            &&& requested(next)->Exit_code == failure.kind.code()
            &&& stage == Stage::Values ==> requested(next)->Exit_message == Some(
                "problem parsing arguments: "@ + failure.message,
            )
            &&& stage != Stage::Values ==> requested(next)->Exit_message == Some(failure.message)
        }),
{
}

/// A request for help or for the version is answered, and nothing else is
/// done: the run asks to show the answer and is over.
pub proof fn lemma_requests_are_answered(text: Seq<char>)
    ensures
        ({
            let next = next_state(
                StateView::ParsingArgs,
                EventView::Resolved { resolved: ResolutionView::Answer { text } },
            );
            &&& finished(next)
            &&& requested(next) == (ActionView::Answer { text })
        }),
{
}

/// A run that is over stays where it is, whatever is reported.
pub proof fn lemma_finished_runs_stay(state: StateView, event: EventView)
    requires
        finished(state),
    ensures
        next_state(state, event) == state,
{
}

/// A run asks to end the process exactly when it is over: with the code of
/// success when it is done, with the code of its failure, which is another,
/// when it has failed, and with its answer where help or the version was
/// asked for.
pub proof fn lemma_exit_tells_outcome(state: StateView)
    ensures
        requested(state) is Exit || requested(state) is Answer <==> finished(state),
        requested(state) is Answer <==> state is Answered,
        state is Answered ==> requested(state)->Answer_text == state->text,
        state is Done ==> requested(state)->Exit_code == EXIT_SUCCESS,
        state is Failed ==> requested(state)->Exit_code == state->failure.kind.code(),
        state is Failed ==> requested(state)->Exit_code != EXIT_SUCCESS,
{
}

/// Every failure is reported with a message: a run that has failed asks to
/// exit with the words of its failure.
pub proof fn lemma_failures_speak(state: StateView)
    requires
        state is Failed,
    ensures
        requested(state)->Exit_message == Some(state->failure.message),
{
}

/// A run comes to write only by reading: a step that ends in `WritingFile`
/// either began there and changed nothing, or began in `ReadingFile` with the
/// file's contents, which were not empty; what is to be written is then those
/// contents under the mask of the key, byte for byte, to the file that was
/// read.
pub proof fn lemma_write_follows_read(state: StateView, event: EventView)
    requires
        next_state(state, event) is WritingFile,
    ensures
        state is WritingFile ==> next_state(state, event) == state,
        state !is WritingFile ==> {
            &&& state is ReadingFile
            &&& event is FileRead
            &&& event->read is Ok
            &&& event->read->Ok_0.len() > 0
            &&& next_state(state, event)->WritingFile_arguments == state->ReadingFile_arguments
            &&& next_state(state, event)->WritingFile_data == xor_mask(
                event->read->Ok_0,
                state->ReadingFile_arguments.key,
            )
            &&& next_state(state, event)->WritingFile_data.len()
                == event->read->Ok_0.len()
        },
{
}

/// An empty file fails the run, and the run then asks for nothing but to
/// exit with the code of an empty input: the file is not written.
pub proof fn lemma_empty_file_is_left_alone(arguments: ArgumentsView)
    ensures
        next_state(
            StateView::ReadingFile { arguments },
            EventView::FileRead { read: Ok(Seq::<u8>::empty()) },
        ) == (StateView::Failed { failure: empty_input() }),
        requested(StateView::Failed { failure: empty_input() }) == (ActionView::Exit {
            code: EXIT_EMPTY_INPUT as int,
            message: Some(empty_input().message),
        }),
{
}

/// A path at which no file exists fails the run before anything is read.
pub proof fn lemma_missing_file_is_not_read(arguments: ArgumentsView)
    ensures
        next_state(
            StateView::CheckingFile { arguments },
            EventView::FileChecked { exists: false },
        ) == (StateView::Failed { failure: file_not_found() }),
        requested(StateView::Failed { failure: file_not_found() }) == (ActionView::Exit {
            code: EXIT_INVALID_ARGUMENTS as int,
            message: Some(file_not_found().message),
        }),
{
}

/// Two runs on one file under the same key, in whichever modes, leave the
/// file as it was: what the second run writes, having read what the first
/// wrote, is what the first run read.
pub proof fn lemma_two_runs_restore_the_file(
    first: ArgumentsView,
    second: ArgumentsView,
    contents: Seq<u8>,
)
    requires
        first.key == second.key,
        contents.len() > 0,
    ensures
        ({
            let written = next_state(
                StateView::ReadingFile { arguments: first },
                EventView::FileRead { read: Ok(contents) },
            );
            &&& written is WritingFile
            &&& next_state(
                StateView::ReadingFile { arguments: second },
                EventView::FileRead { read: Ok(written->WritingFile_data) },
            ) == (StateView::WritingFile { arguments: second, data: contents })
        }),
{
    lemma_second_run_restores(first.mode, second.mode, contents, first.key);
}

impl RunState {
    /// The state in which every run begins.
    pub fn new() -> (state: RunState)
        ensures
            state@ == StateView::ParsingArgs,
    {
        RunState::ParsingArgs
    }

    /// What the run asks of the driver in this state. A file that it asks
    /// to check, read or write has the extension `.txt`.
    pub fn action(&self) -> (action: Action<'_>)
        ensures
            action@ == requested(self@),
            match action@ {
                ActionView::CheckFile { path } => has_text_extension(path),
                ActionView::ReadFile { path } => has_text_extension(path),
                ActionView::WriteFile { path, .. } => has_text_extension(path),
                _ => true,
            },
    {
        match self {
            RunState::ParsingArgs => Action::Resolve,
            RunState::CheckingFile { arguments } => Action::CheckFile {
                path: arguments.file_name(),
            },
            RunState::ReadingFile { arguments } => Action::ReadFile { path: arguments.file_name() },
            RunState::WritingFile { arguments, data } => Action::WriteFile {
                path: arguments.file_name(),
                data,
            },
            RunState::Done => Action::Exit { code: EXIT_SUCCESS, message: None },
            RunState::Answered { text } => Action::Answer { text: text.as_str() },
            RunState::Failed { error } => Action::Exit {
                code: error.exit_code(),
                message: Some(error.message()),
            },
        }
    }

    /// The state that follows on `event`.
    pub fn advance(self, event: Event) -> (next: RunState)
        ensures
            next@ == next_state(self@, event@),
    {
        match (self, event) {
            (RunState::ParsingArgs, Event::Resolved { resolved }) => {
                match resolved {
                    Resolution::Run { arguments } => RunState::CheckingFile { arguments },
                    Resolution::Answer { text } => RunState::Answered { text },
                    Resolution::Refusal { error, stage } => {
                        match stage {
                            Stage::Values => RunState::Failed {
                                error: CipherError::with_detail(
                                    error.kind,
                                    "problem parsing arguments: ",
                                    error.message.as_str(),
                                ),
                            },
                            _ => RunState::Failed { error },
                        }
                    },
                }
            },
            (RunState::CheckingFile { arguments }, Event::FileChecked { exists }) => {
                if exists {
                    RunState::ReadingFile { arguments }
                } else {
                    RunState::Failed {
                        error: CipherError::new(ErrorKind::FileNotFound, "file not found."),
                    }
                }
            },
            (RunState::ReadingFile { arguments }, Event::FileRead { read }) => {
                match read {
                    Ok(bytes) => {
                        if bytes.len() == 0 {
                            RunState::Failed {
                                error: CipherError::new(
                                    ErrorKind::EmptyInput,
                                    "input file is empty.",
                                ),
                            }
                        } else {
                            let mut data = bytes;
                            apply(arguments.mode(), &mut data, arguments.key());
                            RunState::WritingFile { arguments, data }
                        }
                    },
                    Err(detail) => RunState::Failed {
                        error: CipherError::with_detail(
                            ErrorKind::IoReadFailure,
                            "error while read from file: ",
                            detail.as_str(),
                        ),
                    },
                }
            },
            (RunState::WritingFile { .. }, Event::FileWritten { written }) => {
                match written {
                    Ok(_) => RunState::Done,
                    Err(detail) => RunState::Failed {
                        error: CipherError::with_detail(
                            ErrorKind::IoWriteFailure,
                            "failed to write to file: ",
                            detail.as_str(),
                        ),
                    },
                }
            },
            (state, _) => state,
        }
    }
}

} // verus!
