//! Local persistence of a single drawing document: where it lives, how it is
//! saved and loaded, and a diagnostic probe of the storage directories.
//!
//! The filesystem work is done by the caller: each operation is a session that
//! asks for one filesystem request at a time and decides from each reply what
//! comes next. `laws` states what holds of the sessions on a filesystem model.

pub mod diagnostics;
pub mod document;
pub mod error;
pub mod laws;
pub mod paths;
pub mod requests;
pub mod store;

pub use diagnostics::{decimal, DiagStage, DiagStep, Diagnostics};
pub use document::Document;
pub use error::StorageError;
pub use paths::{
    cache_dir_path, join, probe_path, storage_path, CACHE_DIR_NAME, FILE_NAME, PROBE_FILE_NAME,
};
pub use requests::{FsReply, FsRequest};
pub use store::{LoadSession, LoadStage, LoadStep, SaveSession, SaveStage, SaveStep};
