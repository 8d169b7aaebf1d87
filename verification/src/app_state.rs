//! The state of one running session.

use vstd::prelude::*;
use vstd::string::StringExecFns;
use crate::preference::{Preference, PreferenceView};
use crate::recent_list::{without, with_front, well_formed};

verus! {

/// What is appended to a database key to name its backup file.
pub open spec fn backup_suffix() -> Seq<char> {
    ".bak"@
}

/// The backup file of the database `db_key`: beside the database, under the
/// same name with `backup_suffix()` appended. The empty key names no file and
/// has no backup.
pub open spec fn backup_file_of(db_key: Seq<char>) -> Option<Seq<char>> {
    if db_key.len() == 0 {
        None
    } else {
        Some(db_key + backup_suffix())
    }
}

/// An optional path as a plain value.
pub open spec fn optional_path(path: Option<String>) -> Option<Seq<char>> {
    match path {
        Some(p) => Some(p@),
        None => None,
    }
}

/// The session's state: the user's preferences. A caller that shares it
/// between tasks guards it with a lock, and holds that lock for one call of a
/// method at a time.
#[derive(Debug)]
pub struct AppState {
    pub preference: Preference,
}

impl View for AppState {
    type V = PreferenceView;

    open spec fn view(&self) -> PreferenceView {
        self.preference@
    }
}

impl AppState {
    /// A session that starts from the given preferences.
    pub fn new(preference: Preference) -> (state: AppState)
        ensures
            state@ == preference@,
    {
        AppState { preference }
    }

    /// Makes `path` the most recently used file.
    pub fn add_recent_file(&mut self, path: &str)
        ensures
            final(self)@.recent_files == with_front(old(self)@.recent_files, path@),
            final(self)@.settings == old(self)@.settings,
            final(self)@.recent_files[0] == path@,
            well_formed(final(self)@.recent_files),
    {
        self.preference.add_recent_file(path);
    }

    /// Takes `path` out of the recent-file list.
    pub fn remove_recent_file(&mut self, path: &str)
        ensures
            final(self)@.recent_files == without(old(self)@.recent_files, path@),
            final(self)@.settings == old(self)@.settings,
            !final(self)@.recent_files.contains(path@),
            well_formed(final(self)@.recent_files),
    {
        self.preference.remove_recent_file(path);
    }

    /// The backup file for the database `db_key`, or `None` where none is
    /// taken. The answer depends on the key alone, and the state is only read.
    pub fn get_backup_file(&self, db_key: &str) -> (backup: Option<String>)
        ensures
            optional_path(backup) == backup_file_of(db_key@),
    {
        if db_key.is_empty() {
            None
        } else {
            Some(String::from_str(db_key).concat(".bak"))
        }
    }

    /// A copy of the current preferences. The copy shares nothing with the
    /// state, so it can be used after the state's lock is released.
    pub fn read(&self) -> (copy: Preference)
        ensures
            copy@ == self@,
    {
        self.preference.snapshot()
    }
}

} // verus!
