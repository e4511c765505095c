//! The mode parameter: the direction that the user declares for a run.

use vstd::prelude::*;

use crate::error::{CipherError, ErrorKind, Failure};

verus! {

/// What the user means to do with the file. Both modes apply the same mask:
/// the mode labels the run, it does not change the transform.
#[derive(Clone, Copy, Debug, PartialEq, Eq, Structural)]
pub enum Mode {
    Encrypt,
    Decrypt,
}

/// The lowercase form of `text` as `str::to_lowercase` of the standard
/// library gives it.
pub uninterp spec fn lowercase(text: Seq<char>) -> Seq<char>;

/// Calls `str::to_lowercase`, which maps each character of `text` to its
/// Unicode lowercase form. The contract only names the result: it says that
/// the same text always gives the same lowercase text.
#[verifier::external_body]
fn to_lowercase(text: &str) -> (lowered: String)
    ensures
        lowered@ == lowercase(text@),
{
    text.to_lowercase()
}

/// The mode that the lowercase word `name` stands for, if it is one of the
/// two recognised words.
pub open spec fn mode_named(name: Seq<char>) -> Option<Mode> {
    if name == "encryption"@ {
        Some(Mode::Encrypt)
    } else if name == "decryption"@ {
        Some(Mode::Decrypt)
    } else {
        None
    }
}

/// The message of the failure that an unrecognised mode gives.
pub open spec fn unknown_mode_message() -> Seq<char> {
    "invalid mode, must be 'encrypt' or 'decrypt'"@
}

/// What `Mode::from_str` returns for a text whose lowercase form is `lowered`.
pub open spec fn mode_of_lowered(lowered: Seq<char>) -> Result<Mode, Failure> {
    match mode_named(lowered) {
        Some(mode) => Ok(mode),
        None => Err(
            Failure { kind: ErrorKind::InvalidArguments, message: unknown_mode_message() },
        ),
    }
}

/// The mode of a result, and the failure of one as contracts see it.
pub open spec fn mode_outcome(outcome: Result<Mode, CipherError>) -> Result<Mode, Failure> {
    match outcome {
        Ok(mode) => Ok(mode),
        Err(error) => Err(error@),
    }
}

impl Mode {
    /// The mode that `name` stands for, compared letter for letter:
    /// `encryption` or `decryption`, in lowercase.
    pub fn from_lowercase(name: &str) -> (mode: Option<Mode>)
        ensures
            mode == mode_named(name@),
    {
        let word = name.to_owned();
        if word == "encryption".to_owned() {
            Some(Mode::Encrypt)
        } else if word == "decryption".to_owned() {
            Some(Mode::Decrypt)
        } else {
            None
        }
    }

    /// The mode that `s` stands for, whatever the case of its letters. Any
    /// other text is refused as an invalid argument.
    pub fn from_str(s: &str) -> (outcome: Result<Mode, CipherError>)
        ensures
            mode_outcome(outcome) == mode_of_lowered(lowercase(s@)),
    {
        let lowered = to_lowercase(s);
        match Mode::from_lowercase(lowered.as_str()) {
            Some(mode) => Ok(mode),
            None => Err(
                CipherError::new(
                    ErrorKind::InvalidArguments,
                    "invalid mode, must be 'encrypt' or 'decrypt'",
                ),
            ),
        }
    }
}

} // verus!
