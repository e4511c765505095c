//! The ways in which a run can fail, and the exit code of each.

use vstd::prelude::*;
use vstd::string::StringExecFns;

verus! {

/// The category of a failure. Every failure ends the run.
#[derive(Clone, Copy, Debug, PartialEq, Eq, Structural)]
pub enum ErrorKind {
    /// A parameter is missing or malformed: the file name, the mode or the key.
    InvalidArguments,
    /// No regular file exists at the given path.
    FileNotFound,
    /// The file could not be read.
    IoReadFailure,
    /// The file holds no bytes.
    EmptyInput,
    /// The file could not be written back.
    IoWriteFailure,
}

/// The exit code of a run that succeeded.
pub const EXIT_SUCCESS: i32 = 0;

/// The exit code of a run whose parameters were refused. A path at which no
/// file exists is a refused parameter.
pub const EXIT_INVALID_ARGUMENTS: i32 = 1;

/// The exit code of a run that could not read its file.
pub const EXIT_READ_FAILURE: i32 = 2;

/// The exit code of a run that could not write its file.
pub const EXIT_WRITE_FAILURE: i32 = 3;

/// The exit code of a run whose file was empty.
pub const EXIT_EMPTY_INPUT: i32 = 4;

impl ErrorKind {
    /// The exit code of a run that fails in this way.
    pub open spec fn code(self) -> int {
        match self {
            ErrorKind::InvalidArguments => EXIT_INVALID_ARGUMENTS as int,
            ErrorKind::FileNotFound => EXIT_INVALID_ARGUMENTS as int,
            ErrorKind::IoReadFailure => EXIT_READ_FAILURE as int,
            ErrorKind::EmptyInput => EXIT_EMPTY_INPUT as int,
            ErrorKind::IoWriteFailure => EXIT_WRITE_FAILURE as int,
        }
    }

    /// Whether the failure lies in the parameters of the run.
    pub open spec fn blames_arguments(self) -> bool {
        self == ErrorKind::InvalidArguments || self == ErrorKind::FileNotFound
    }

    /// The exit code of a run that fails in this way.
    pub fn exit_code(self) -> (code: i32)
        ensures
            code == self.code(),
    {
        match self {
            ErrorKind::InvalidArguments => EXIT_INVALID_ARGUMENTS,
            ErrorKind::FileNotFound => EXIT_INVALID_ARGUMENTS,
            ErrorKind::IoReadFailure => EXIT_READ_FAILURE,
            ErrorKind::EmptyInput => EXIT_EMPTY_INPUT,
            ErrorKind::IoWriteFailure => EXIT_WRITE_FAILURE,
        }
    }

    /// No failure exits with the code of success, and two failures share a
    /// code only if they are of the same kind or both lie in the parameters.
    pub proof fn lemma_codes_tell_failures_apart(self, other: ErrorKind)
        ensures
            self.code() != EXIT_SUCCESS,
            self.code() == other.code() <==> (self == other || (self.blames_arguments()
                && other.blames_arguments())),
    {
    }
}

/// A failure as contracts see it: its kind and the text of its message.
pub struct Failure {
    pub kind: ErrorKind,
    pub message: Seq<char>,
}

/// A failure of the run: its kind, and a message for the user.
#[derive(Debug, PartialEq, Eq)]
pub struct CipherError {
    pub kind: ErrorKind,
    pub message: String,
}

impl View for CipherError {
    type V = Failure;

    open spec fn view(&self) -> Failure {
        Failure { kind: self.kind, message: self.message@ }
    }
}

impl CipherError {
    /// A failure of `kind` with the message `message`.
    pub fn new(kind: ErrorKind, message: &str) -> (error: CipherError)
        ensures
            error@ == (Failure { kind, message: message@ }),
    {
        CipherError { kind, message: message.to_owned() }
    }

    /// A failure of `kind` whose message is `context` followed by `detail`,
    /// the words of whoever reported the failure.
    pub fn with_detail(kind: ErrorKind, context: &str, detail: &str) -> (error: CipherError)
        ensures
            error@ == (Failure { kind, message: context@ + detail@ }),
    {
        CipherError { kind, message: context.to_owned().concat(detail) }
    }

    /// The category of the failure.
    pub fn kind(&self) -> (kind: ErrorKind)
        ensures
            kind == self@.kind,
    {
        self.kind
    }

    /// The message for the user.
    pub fn message(&self) -> (message: &str)
        ensures
            message@ == self@.message,
    {
        self.message.as_str()
    }

    /// The exit code of a run that ends with this failure.
    pub fn exit_code(&self) -> (code: i32)
        ensures
            code == self@.kind.code(),
    {
        self.kind.exit_code()
    }
}

} // verus!
