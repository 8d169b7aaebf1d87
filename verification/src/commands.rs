//! The command layer: one entry point per command that touches the session.
//!
//! Each entry point is handed what the engine answered and decides from it
//! alone what happens to the recent-file list and what goes back to the
//! caller. The engine is called before or after, never in between, so the
//! state is borrowed only for the change itself.

use vstd::prelude::*;
use vstd::string::StringExecFns;
use crate::app_state::{AppState, backup_file_of, optional_path};
use crate::engine::{EngineError, KdbxLoaded, flatten, flattened};
use crate::preference::Preference;
use crate::recent_list::{RecentFileChange, changed, with_front, well_formed};

verus! {

/// The kind of change that the interface is told about.
#[derive(Clone, Debug, PartialEq, Eq, Structural)]
pub enum UpdateType {
    GroupUpdate,
    EntryUpdate,
}

/// The payload of an update event.
#[derive(Clone, Debug)]
pub struct UpdatePayload {
    pub update_type: UpdateType,
}

/// The change that follows an attempt to load a database: a success moves
/// the path to the front, a failure because the file is missing removes it,
/// and every other failure changes nothing.
pub open spec fn change_after_load<T>(outcome: Result<T, EngineError>) -> RecentFileChange {
    match outcome {
        Ok(_) => RecentFileChange::MoveToFront,
        Err(error) => if error.is_missing_file() {
            RecentFileChange::Remove
        } else {
            RecentFileChange::Keep
        },
    }
}

/// The change that follows an attempt to create a database or to save one
/// under a new name: only a success changes the list.
pub open spec fn change_after_store<T>(outcome: Result<T, EngineError>) -> RecentFileChange {
    match outcome {
        Ok(_) => RecentFileChange::MoveToFront,
        Err(_) => RecentFileChange::Keep,
    }
}

/// Classifies the outcome of a load. The error is read by its structure, not
/// by any text made from it.
pub fn classify_load<T>(outcome: &Result<T, EngineError>) -> (change: RecentFileChange)
    ensures
        change == change_after_load(*outcome),
{
    match outcome {
        Ok(_) => RecentFileChange::MoveToFront,
        Err(error) => {
            if error.reports_missing_file() {
                RecentFileChange::Remove
            } else {
                RecentFileChange::Keep
            }
        },
    }
}

/// Carries out `change` for `path` on the session's recent-file list.
pub fn apply_change(app_state: &mut AppState, change: RecentFileChange, path: &str)
    ensures
        final(app_state)@.recent_files == changed(old(app_state)@.recent_files, change, path@),
        final(app_state)@.settings == old(app_state)@.settings,
        well_formed(final(app_state)@.recent_files),
{
    match change {
        RecentFileChange::MoveToFront => app_state.add_recent_file(path),
        RecentFileChange::Remove => app_state.remove_recent_file(path),
        RecentFileChange::Keep => {
            proof {
                use_type_invariant(&app_state.preference);
            }
        },
    }
}

/// Finishes a load of the database at `db_file_name`, given what the engine
/// answered. On success the path moves to the front of the recent-file list.
/// Where the file was not found the path leaves the list. Any other failure
/// leaves the list alone. The engine's answer goes back flattened, and
/// otherwise as it came.
pub fn load_kdbx(
    db_file_name: &str,
    outcome: Result<KdbxLoaded, EngineError>,
    app_state: &mut AppState,
) -> (sent: Result<KdbxLoaded, String>)
    ensures
        sent == flattened(outcome),
        final(app_state)@.recent_files == changed(
            old(app_state)@.recent_files,
            change_after_load(outcome),
            db_file_name@,
        ),
        final(app_state)@.settings == old(app_state)@.settings,
        well_formed(final(app_state)@.recent_files),
        outcome is Ok ==> final(app_state)@.recent_files[0] == db_file_name@,
        outcome is Err && outcome->Err_0.is_missing_file()
            ==> !final(app_state)@.recent_files.contains(db_file_name@),
        outcome is Err && !outcome->Err_0.is_missing_file() ==> final(app_state)@.recent_files
            == old(app_state)@.recent_files,
{
    let change = classify_load(&outcome);
    apply_change(app_state, change, db_file_name);
    flatten(outcome)
}

/// Finishes the creation of a database, given what the engine answered. On
/// success the key of the new database moves to the front of the recent-file
/// list; a failure leaves the list alone.
pub fn create_kdbx(outcome: Result<KdbxLoaded, EngineError>, app_state: &mut AppState) -> (sent:
    Result<KdbxLoaded, String>)
    ensures
        sent == flattened(outcome),
        final(app_state)@.recent_files == match outcome {
            Ok(created) => with_front(old(app_state)@.recent_files, created.db_key@),
            Err(_) => old(app_state)@.recent_files,
        },
        final(app_state)@.settings == old(app_state)@.settings,
        well_formed(final(app_state)@.recent_files),
        outcome is Ok ==> final(app_state)@.recent_files[0] == outcome->Ok_0.db_key@,
{
    match &outcome {
        Ok(created) => app_state.add_recent_file(created.db_key.as_str()),
        Err(_) => {
            proof {
                use_type_invariant(&app_state.preference);
            }
        },
    }
    flatten(outcome)
}

/// Finishes a save of a database under the new name `db_file_name`, given
/// what the engine answered. On success the new path moves to the front of
/// the recent-file list; a failure leaves the list alone.
pub fn save_as_kdbx(
    db_file_name: &str,
    outcome: Result<KdbxLoaded, EngineError>,
    app_state: &mut AppState,
) -> (sent: Result<KdbxLoaded, String>)
    ensures
        sent == flattened(outcome),
        final(app_state)@.recent_files == changed(
            old(app_state)@.recent_files,
            change_after_store(outcome),
            db_file_name@,
        ),
        final(app_state)@.settings == old(app_state)@.settings,
        well_formed(final(app_state)@.recent_files),
        outcome is Ok ==> final(app_state)@.recent_files[0] == db_file_name@,
        outcome is Err ==> final(app_state)@.recent_files == old(app_state)@.recent_files,
{
    match &outcome {
        Ok(_) => app_state.add_recent_file(db_file_name),
        Err(_) => {
            proof {
                use_type_invariant(&app_state.preference);
            }
        },
    }
    flatten(outcome)
}

/// What is handed to the engine to save one database: its key, and the
/// backup file to write first, if any.
pub open spec fn save_request(db_key: Seq<char>) -> (Seq<char>, Option<Seq<char>>) {
    (db_key, backup_file_of(db_key))
}

/// A save request as plain values.
pub open spec fn request_view(request: (String, Option<String>)) -> (Seq<char>, Option<Seq<char>>) {
    (request.0@, optional_path(request.1))
}

/// Prepares the save of the database `db_key` to its own file: the key and
/// its backup file. The recent-file list is not touched by a plain save.
pub fn save_kdbx(db_key: &str, app_state: &AppState) -> (request: (String, Option<String>))
    ensures
        request_view(request) == save_request(db_key@),
{
    (String::from_str(db_key), app_state.get_backup_file(db_key))
}

/// Prepares the save of every database in `db_keys`: one request per key, in
/// the order of the keys.
pub fn save_all_modified_dbs(db_keys: Vec<String>, app_state: &AppState) -> (requests: Vec<
    (String, Option<String>),
>)
    ensures
        requests@.len() == db_keys@.len(),
        forall|i: int|
            0 <= i < db_keys@.len() ==> request_view(#[trigger] requests@[i]) == save_request(
                db_keys@[i]@,
            ),
{
    let mut requests: Vec<(String, Option<String>)> = Vec::new();
    let n: usize = db_keys.len();
    let mut i: usize = 0;
    while i < n
        invariant
            i <= n,
            n == db_keys@.len(),
            requests@.len() == i,
            forall|j: int|
                0 <= j < i ==> request_view(#[trigger] requests@[j]) == save_request(
                    db_keys@[j]@,
                ),
        decreases n - i,
    {
        let request = save_kdbx(db_keys[i].as_str(), app_state);
        requests.push(request);
        i += 1;
    }
    requests
}

/// A copy of the session's preferences, for display.
pub fn read_app_preference(app_state: &AppState) -> (copy: Preference)
    ensures
        copy@ == app_state@,
{
    app_state.read()
}

/// A directory lookup as plain values: `None` where the system names no such
/// directory; `Some(None)` where it names one whose path is not text.
pub open spec fn dir_view(dir: Option<Option<String>>) -> Option<Option<Seq<char>>> {
    match dir {
        Some(path) => Some(optional_path(path)),
        None => None,
    }
}

/// One entry of the table of standard paths, as plain values.
pub open spec fn entry_view(entry: (String, Option<String>)) -> (Seq<char>, Option<Seq<char>>) {
    (entry.0@, optional_path(entry.1))
}

/// The entries of a table of standard paths, as plain values.
pub open spec fn entries_view(entries: Seq<(String, Option<String>)>) -> Seq<
    (Seq<char>, Option<Seq<char>>),
> {
    entries.map_values(|entry: (String, Option<String>)| entry_view(entry))
}

/// The entry for a directory that the system was asked for: one entry under
/// `name` where it was found, none where it was not.
pub open spec fn found_dir(name: Seq<char>, dir: Option<Option<Seq<char>>>) -> Seq<
    (Seq<char>, Option<Seq<char>>),
> {
    match dir {
        Some(path) => seq![(name, path)],
        None => Seq::empty(),
    }
}

/// The table of standard paths: the documents, home and downloads
/// directories and the application's resources, each under its name and only
/// where it was found.
pub open spec fn standard_path_entries(
    document_dir: Option<Option<Seq<char>>>,
    home_dir: Option<Option<Seq<char>>>,
    download_dir: Option<Option<Seq<char>>>,
    resources_dir: Option<Seq<char>>,
) -> Seq<(Seq<char>, Option<Seq<char>>)> {
    found_dir("document-dir"@, document_dir) + found_dir("home-dir"@, home_dir) + found_dir(
        "download-dir"@,
        download_dir,
    ) + found_dir(
        "resources-dir"@,
        match resources_dir {
            Some(path) => Some(Some(path)),
            None => None,
        },
    )
}

/// Adds the entry for one directory to the table, if the directory was found.
fn push_found_dir(entries: &mut Vec<(String, Option<String>)>, name: &str, dir: Option<
    Option<String>,
>)
    ensures
        entries_view(final(entries)@) == entries_view(old(entries)@) + found_dir(
            name@,
            dir_view(dir),
        ),
{
    match dir {
        Some(path) => {
            let entry = (String::from_str(name), path);
            assert(entries_view(entries@.push(entry)) =~= entries_view(entries@) + seq![
                entry_view(entry),
            ]);
            entries.push(entry);
        },
        None => {
            assert(entries_view(entries@) + Seq::empty() =~= entries_view(entries@));
        },
    }
}

/// Assembles the table of standard paths from what the system answered for
/// each directory. A directory that was not found gets no entry; one that
/// was found but whose path is not text gets an entry without a path.
pub fn standard_paths(
    document_dir: Option<Option<String>>,
    home_dir: Option<Option<String>>,
    download_dir: Option<Option<String>>,
    resources_dir: Option<String>,
) -> (entries: Vec<(String, Option<String>)>)
    ensures
        entries_view(entries@) == standard_path_entries(
            dir_view(document_dir),
            dir_view(home_dir),
            dir_view(download_dir),
            optional_path(resources_dir),
        ),
{
    let mut entries: Vec<(String, Option<String>)> = Vec::new();
    assert(entries_view(entries@) =~= Seq::empty());
    push_found_dir(&mut entries, "document-dir", document_dir);
    push_found_dir(&mut entries, "home-dir", home_dir);
    push_found_dir(&mut entries, "download-dir", download_dir);
    let resources: Option<Option<String>> = match resources_dir {
        Some(path) => Some(Some(path)),
        None => None,
    };
    push_found_dir(&mut entries, "resources-dir", resources);
    assert(entries_view(entries@) =~= standard_path_entries(
        dir_view(document_dir),
        dir_view(home_dir),
        dir_view(download_dir),
        optional_path(resources_dir),
    ));
    entries
}

} // verus!
