//! A single-byte XOR file cipher: the mask itself, the validation of the
//! command-line parameters, and the sequencing of one run.
//!
//! The library decides and computes; it reads no file and ends no process.
//! A program around it hands it the tokens of the command line and the
//! contents of the file, and does what `run` asks for.

pub mod arguments;
pub mod cipher;
pub mod error;
pub mod key;
pub mod mode;
pub mod options;
pub mod run;
pub mod text;
