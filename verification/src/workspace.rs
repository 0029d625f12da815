//! The directory that the session works in.

use crate::protocol::Options;
use std::path::PathBuf;
use std::sync::Arc;
use vstd::prelude::*;

verus! {

/// `std::path::PathBuf`, carried through as an opaque value: nothing is
/// claimed about what a path holds.
#[verifier::external_type_specification]
#[verifier::external_body]
pub struct ExPathBuf(PathBuf);

/// The workspace of a session, rooted at the directory the server was
/// started in.
pub struct Workspace {
    current_dir: Arc<PathBuf>,
}

impl Workspace {
    /// The directory the workspace is rooted at.
    pub closed spec fn root(&self) -> Arc<PathBuf> {
        self.current_dir
    }

    /// A workspace rooted at `current_dir`.
    pub fn new(current_dir: Arc<PathBuf>) -> (workspace: Self)
        ensures
            workspace.root() == current_dir,
    {
        Workspace { current_dir }
    }

    /// The directory the workspace is rooted at.
    pub fn current_dir(&self) -> (dir: &Arc<PathBuf>)
        ensures
            *dir == self.root(),
    {
        &self.current_dir
    }

    /// Takes a change of the options. The workspace depends on none of them.
    pub fn reparse(&self, _options: &Options) {
    }
}

} // verus!
