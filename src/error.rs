use vstd::prelude::*;
use vstd::string::*;

verus! {

/// Why a save or a load did not complete.
pub enum StorageError {
    /// The host could not supply a data directory.
    PathResolution,
    /// A directory could not be created; holds the filesystem's message.
    DirectoryCreation(String),
    /// The document could not be written; holds the filesystem's message.
    Write(String),
    /// The document could not be read; holds the filesystem's message.
    Read(String),
}

/// The mathematical value of a [`StorageError`].
pub enum ErrorModel {
    PathResolution,
    DirectoryCreation(Seq<char>),
    Write(Seq<char>),
    Read(Seq<char>),
}

/// Message reported when the host supplies no data directory.
pub const NO_DATA_DIR: &'static str = "Failed to get app data directory";

impl View for StorageError {
    type V = ErrorModel;

    open spec fn view(&self) -> ErrorModel {
        match self {
            StorageError::PathResolution => ErrorModel::PathResolution,
            StorageError::DirectoryCreation(m) => ErrorModel::DirectoryCreation(m@),
            StorageError::Write(m) => ErrorModel::Write(m@),
            StorageError::Read(m) => ErrorModel::Read(m@),
        }
    }
}

/// The text handed to the user for an error.
pub open spec fn message_spec(e: ErrorModel) -> Seq<char> {
    match e {
        ErrorModel::PathResolution => NO_DATA_DIR@,
        ErrorModel::DirectoryCreation(m) => m,
        ErrorModel::Write(m) => m,
        ErrorModel::Read(m) => m,
    }
}

impl StorageError {
    /// The text handed to the user for this error.
    pub fn message(&self) -> (r: String)
        ensures
            r@ == message_spec(self@),
    {
        match self {
            StorageError::PathResolution => String::from_str(NO_DATA_DIR),
            StorageError::DirectoryCreation(m) => m.clone(),
            StorageError::Write(m) => m.clone(),
            StorageError::Read(m) => m.clone(),
        }
    }
}

} // verus!
