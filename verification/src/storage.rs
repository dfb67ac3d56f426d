//! Snapshots of the shared log: where a node keeps its snapshot and what
//! the file holds. Reading and writing the file is left to the caller.

use crdts::GSet;
use vstd::prelude::*;
use vstd::string::StringExecFns;
use crate::shared_log::{
    empty_log, file_decode, file_encode, log_entries, log_file_decoding, log_file_encoding,
};
use crate::text::{decimal, push_decimal};

verus! {

/// Why a snapshot could not be read.
#[derive(Clone, Copy, Debug, PartialEq, Eq)]
pub enum StorageError {
    /// The stored text is not the JSON of a log.
    Parse,
}

/// A snapshot that is ready to be written: the file and its whole text.
#[derive(Clone, Debug, PartialEq, Eq)]
pub struct SnapshotFile {
    pub path: String,
    pub text: String,
}

/// A snapshot file as a mathematical value.
pub struct SnapshotFileView {
    pub path: Seq<char>,
    pub text: Seq<char>,
}

impl View for SnapshotFile {
    type V = SnapshotFileView;

    open spec fn view(&self) -> SnapshotFileView {
        SnapshotFileView { path: self.path@, text: self.text@ }
    }
}

/// The path of the snapshot file of the node on `port`.
pub open spec fn storage_path(port: u16) -> Seq<char> {
    "data/storage_"@ + decimal(port as nat) + ".json"@
}

/// The path of the snapshot file of the node on `port`:
/// `data/storage_<port>.json`.
pub fn get_storage_path(port: u16) -> (path: String)
    ensures
        path@ == storage_path(port),
{
    let mut path = String::from_str("data/storage_");
    push_decimal(&mut path, port as u64);
    path.append(".json");
    path
}

/// Prepares the snapshot of `log` for the node on `port`.
///
/// The text is the indented JSON of the log, and reading that text with
/// [`load_log`] gives back a log with the same entries.
pub fn save_log(port: u16, log: &GSet<String>) -> (file: SnapshotFile)
    ensures
        file.path@ == storage_path(port),
        file.text@ == log_file_encoding(log_entries(*log)),
        log_file_decoding(file.text@) == Some(log_entries(*log)),
{
    SnapshotFile { path: get_storage_path(port), text: file_encode(log).unwrap() }
}

/// The log that a node starts from, given the text of its snapshot file,
/// or `None` where the file does not exist.
///
/// Without a file the log is empty. With one, the log holds the entries
/// that the text encodes; a text that encodes no log fails with `Parse`.
pub fn load_log(stored: Option<&str>) -> (r: Result<GSet<String>, StorageError>)
    ensures
        match stored {
            None => r is Ok && log_entries(r->Ok_0) == Set::<Seq<char>>::empty(),
            Some(text) => match r {
                Ok(log) => log_file_decoding(text@) == Some(log_entries(log)),
                Err(e) => e == StorageError::Parse && log_file_decoding(text@) is None,
            },
        },
{
    match stored {
        None => Ok(empty_log()),
        Some(text) => match file_decode(text) {
            Some(log) => Ok(log),
            None => Err(StorageError::Parse),
        },
    }
}

} // verus!
