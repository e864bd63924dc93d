//! The ways in which an operation of this library fails.

use vstd::prelude::*;
use crate::text::{signed_decimal, signed_decimal_string};

verus! {

/// Why an operation failed.
#[derive(Clone, Copy, Debug, PartialEq, Eq, Structural)]
pub enum Error {
    /// A helper container ended with an exit code other than zero.
    NonZeroExit(i64),
    /// The backup file that was read holds nothing.
    EmptyBackupFile,
    /// The helper's output names no archive.
    UnresolvableArchivePath,
    /// The text is no base64, or what it encodes is no UTF-8 text.
    InvalidEncoding,
    /// A volume mount without a name, or a bind mount without a source.
    InvalidMount,
    /// The backup records no image to create the container from.
    MissingImage,
    /// A result was handed in while no helper was awaited.
    OutOfTurn,
}

/// The text that describes an error.
pub open spec fn error_text(e: Error) -> Seq<char> {
    match e {
        Error::NonZeroExit(code) => "Docker returned non-zero exit code: "@ + signed_decimal(
            code as int,
        ),
        Error::EmptyBackupFile => "Found empty backup file"@,
        Error::UnresolvableArchivePath => "Unable to resolve the archive path from the output"@,
        Error::InvalidEncoding => "Unable to decode contents as base64"@,
        Error::InvalidMount => "Mount has no name or source"@,
        Error::MissingImage => "Backup records no image"@,
        Error::OutOfTurn => "No helper was awaited"@,
    }
}

impl Error {
    /// Describes the error in words.
    pub fn message(&self) -> (text: String)
        ensures
            text@ == error_text(*self),
    {
        match self {
            Error::NonZeroExit(code) => {
                let number = signed_decimal_string(*code);
                String::from_str("Docker returned non-zero exit code: ").concat(number.as_str())
            },
            Error::EmptyBackupFile => String::from_str("Found empty backup file"),
            Error::UnresolvableArchivePath => String::from_str(
                "Unable to resolve the archive path from the output",
            ),
            Error::InvalidEncoding => String::from_str("Unable to decode contents as base64"),
            Error::InvalidMount => String::from_str("Mount has no name or source"),
            Error::MissingImage => String::from_str("Backup records no image"),
            Error::OutOfTurn => String::from_str("No helper was awaited"),
        }
    }
}

} // verus!
