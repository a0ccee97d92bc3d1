//! Supported signal-file formats, keyed by file extension.

use vstd::prelude::*;
use crate::text::str_eq;

verus! {

/// The closed set of signal-file formats this crate can decode.
#[derive(Clone, Copy, PartialEq, Eq, Structural, Debug, Hash)]
pub enum FileType {
    Vibric,
}

/// Errors raised while resolving a path to a format.
#[derive(Clone, Copy, PartialEq, Eq, Structural, Debug)]
pub enum FileError {
    /// The extension names no supported format.
    UnsupportedType,
    /// The path's extension could not be read as text.
    ExtensionParseError,
    /// The path itself could not be read as text.
    PathParseError,
}

impl FileError {
    /// The message shown for this error.
    pub fn message(&self) -> (r: String)
        ensures
            r@ == match self {
                FileError::UnsupportedType => "Unsupported file type"@,
                FileError::ExtensionParseError => "File extension parse error"@,
                FileError::PathParseError => "File path parse error"@,
            },
    {
        match self {
            FileError::UnsupportedType => String::from_str("Unsupported file type"),
            FileError::ExtensionParseError => String::from_str("File extension parse error"),
            FileError::PathParseError => String::from_str("File path parse error"),
        }
    }
}

/// The format an extension names, if any: `bin` names the Vibric container.
pub open spec fn spec_file_type(ext: Seq<char>) -> Option<FileType> {
    if ext == "bin"@ {
        Some(FileType::Vibric)
    } else {
        None
    }
}

/// Resolve a file extension to its format, or `UnsupportedType`.
pub fn file_type_from_extension(ext: &str) -> (r: Result<FileType, FileError>)
    ensures
        r == match spec_file_type(ext@) {
            Some(t) => Result::<FileType, FileError>::Ok(t),
            None => Result::<FileType, FileError>::Err(FileError::UnsupportedType),
        },
{
    if str_eq(ext, "bin") {
        Ok(FileType::Vibric)
    } else {
        Err(FileError::UnsupportedType)
    }
}

} // verus!
