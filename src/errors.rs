use vstd::prelude::*;

verus! {

/// Failures while discovering the files of the directory.
#[derive(Debug, Clone, PartialEq, Eq)]
pub enum LayoutError {
    NoFilesFound,
    CannotReadDirectory { directory: String, error: String },
    CannotGetDirectoryEntry { error: String },
    Other(String),
}

/// Failures while reading, parsing or combining the files.
#[derive(Debug, Clone, PartialEq, Eq)]
pub enum FileParseError {
    CannotReadFile(String),
    CannotParseFile { path: String, error: String },
    NoOrTooManyStruct(String),
    NotAllNewMethodsAreIdentical,
    Other(String),
}

/// The single error reported at the invocation boundary.
#[derive(Debug, Clone, PartialEq, Eq)]
pub enum MacroError {
    InputError(String),
    LayoutError(LayoutError),
    FileParseError(FileParseError),
}

} // verus!
