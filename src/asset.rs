//! The sealed asset: the extracted executable and the directory that holds it.

use crate::sealing::SealState;
use std::path::PathBuf;
use tempfile::TempDir;
use vstd::prelude::*;

verus! {

#[verifier::external_type_specification]
#[verifier::external_body]
pub struct ExTempDir(tempfile::TempDir);

#[verifier::external_type_specification]
#[verifier::external_body]
pub struct ExPathBuf(std::path::PathBuf);

/// The extracted executable. It owns the temporary directory that holds the
/// file, so the directory and the file stay on disk for as long as the value
/// lives and are removed when it is dropped.
#[derive(Debug)]
pub struct Krane {
    // Held only to keep the directory, and so the file, in place.
    _tmp_dir: TempDir,
    path: PathBuf,
}

impl Krane {
    /// The path of the extracted file.
    pub closed spec fn file_path(&self) -> PathBuf {
        self.path
    }

    /// Bundles the directory of a sealing run with the path of the file in
    /// it. Only a run that has sealed yields an asset; for any other state
    /// the directory is dropped, and with it removed.
    pub fn from_sealed(state: SealState, tmp_dir: TempDir, path: PathBuf) -> (r: Option<Krane>)
        ensures
            r is Some <==> state is Sealed,
            r is Some ==> r->Some_0.file_path() == path,
    {
        match state {
            SealState::Sealed => Some(Krane { _tmp_dir: tmp_dir, path }),
            _ => None,
        }
    }

    /// The path of the extracted, executable file, to be handed to a
    /// process-spawning facility.
    pub fn path(&self) -> (r: &PathBuf)
        ensures
            *r == self.file_path(),
    {
        &self.path
    }
}

} // verus!
