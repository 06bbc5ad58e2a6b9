//! The target-directory stage: a committed path value plus the state of the
//! (asynchronous) filesystem existence check on it. The check itself is I/O
//! and lives with the host; its result enters here as a plain value.

use vstd::prelude::*;

verus! {

/// State of the existence check on the committed path.
#[derive(Debug, Clone, Copy, PartialEq, Eq, Structural)]
pub enum PathCheck {
    /// No usable result yet: nothing committed, or a check still outstanding.
    Pending,
    /// The path does not exist, or the check itself reported an error.
    Failed,
    /// The path exists.
    Valid,
}

/// Local state of the target-directory stage.
#[derive(Debug, Clone)]
pub struct SelectGameState {
    /// The committed path value (from the picker dialog or typed in).
    pub path: String,
    /// Outcome of the latest existence check on `path`.
    pub status: PathCheck,
}

impl SelectGameState {
    /// Fresh stage state: no path committed, check pending.
    pub fn new() -> (st: SelectGameState)
        ensures
            st.path@.len() == 0,
            st.status == PathCheck::Pending,
    {
        SelectGameState { path: String::new(), status: PathCheck::Pending }
    }

    /// Commit a path value. The stage returns to the pending (blocked) state;
    /// the result says whether an existence check is to be run — an empty
    /// value short-circuits and stays blocked without one.
    pub fn commit_path(&mut self, path: String) -> (check_needed: bool)
        ensures
            final(self).path == path,
            final(self).status == PathCheck::Pending,
            check_needed == (path@.len() > 0),
    {
        let check_needed = !path.as_str().is_empty();
        self.path = path;
        self.status = PathCheck::Pending;
        check_needed
    }

    /// Apply the result of the existence check: only an affirmative answer
    /// unblocks the stage; a missing path and an I/O error both leave it
    /// blocked with an error shown.
    pub fn apply_check_result(&mut self, exists: Result<bool, String>)
        ensures
            final(self).path == old(self).path,
            final(self).status == (if exists matches Ok(true) {
                PathCheck::Valid
            } else {
                PathCheck::Failed
            }),
    {
        self.status = match exists {
            Ok(true) => PathCheck::Valid,
            Ok(false) => PathCheck::Failed,
            Err(_) => PathCheck::Failed,
        };
    }

    /// Whether the "next" control is offered: exactly when the latest
    /// existence check succeeded.
    pub fn next_available(&self) -> (r: bool)
        ensures
            r == (self.status == PathCheck::Valid),
    {
        match self.status {
            PathCheck::Valid => true,
            _ => false,
        }
    }

    /// The inline status text shown beside the input: a pending or error
    /// indicator, or nothing once the path has been verified.
    pub fn status_text(&self) -> (r: Option<String>)
        ensures
            self.status == PathCheck::Pending ==> (r matches Some(t) && t@ == "正在检查"@),
            self.status == PathCheck::Failed ==> (r matches Some(t) && t@ == "错误"@),
            self.status == PathCheck::Valid ==> r is None,
    {
        match self.status {
            PathCheck::Pending => Some(String::from_str("正在检查")),
            PathCheck::Failed => Some(String::from_str("错误")),
            PathCheck::Valid => None,
        }
    }
}

} // verus!
