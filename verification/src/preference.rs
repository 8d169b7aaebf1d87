//! User preferences: the recent-file list and the settings kept beside it.

use vstd::prelude::*;
use crate::recent_list::{without, with_front, well_formed, restored, differs_from,
    lemma_without_contains, lemma_without_no_duplicates, lemma_with_front_key,
    lemma_with_front_well_formed, lemma_restored_well_formed, MAX_RECENT_FILES};

verus! {

/// What a `Preference` holds, as plain mathematical values.
pub ghost struct PreferenceView {
    /// The recently opened databases, most recent first.
    pub recent_files: Seq<Seq<char>>,
    /// The other user settings, stored and handed back untouched.
    pub settings: Seq<char>,
}

/// The paths of `files`, each as a sequence of characters.
pub open spec fn paths_of(files: Seq<String>) -> Seq<Seq<char>> {
    files.map_values(|s: String| s@)
}

/// A copy of `files` that leaves out every entry equal to `key`.
fn copy_without(files: &Vec<String>, key: &String) -> (kept: Vec<String>)
    ensures
        paths_of(kept@) == without(paths_of(files@), key@),
{
    let mut kept: Vec<String> = Vec::new();
    let n: usize = files.len();
    let mut i: usize = 0;
    assert(paths_of(kept@) =~= without(paths_of(files@).take(0), key@)) by {
        reveal(Seq::filter);
    }
    while i < n
        invariant
            i <= n,
            n == files.len(),
            paths_of(kept@) == without(paths_of(files@).take(i as int), key@),
        decreases n - i,
    {
        let ghost before = paths_of(files@).take(i as int);
        let ghost entry = files@[i as int]@;
        proof {
            assert(paths_of(files@).take(i + 1) =~= before.push(entry));
            before.lemma_filter_push(entry, differs_from(key@));
        }
        if files[i] != *key {
            let copy: String = files[i].clone();
            proof {
                assert(paths_of(kept@.push(copy)) =~= paths_of(kept@).push(entry));
            }
            kept.push(copy);
        }
        i += 1;
    }
    assert(paths_of(files@).take(n as int) =~= paths_of(files@));
    kept
}

/// The user's preferences. The recent-file list never holds a path twice and
/// never more than `MAX_RECENT_FILES` paths.
#[derive(Debug)]
pub struct Preference {
    recent_files: Vec<String>,
    settings: String,
}

impl View for Preference {
    type V = PreferenceView;

    closed spec fn view(&self) -> PreferenceView {
        PreferenceView { recent_files: paths_of(self.recent_files@), settings: self.settings@ }
    }
}

impl Preference {
    /// Holds of every `Preference`: its recent-file list is well formed.
    #[verifier::type_invariant]
    pub open spec fn list_is_well_formed(&self) -> bool {
        well_formed(self@.recent_files)
    }

    /// Preferences with the given settings and no recent file.
    pub fn new(settings: String) -> (r: Preference)
        ensures
            r@.recent_files == Seq::<Seq<char>>::empty(),
            r@.settings == settings@,
    {
        let r = Preference { recent_files: Vec::new(), settings };
        assert(paths_of(r.recent_files@) =~= Seq::<Seq<char>>::empty());
        r
    }

    /// Preferences as they were stored: the given settings, and the recent
    /// files that `stored` stands for. `stored` may hold anything; a path that
    /// occurs twice is kept where it occurs first, and what exceeds
    /// `MAX_RECENT_FILES` is dropped from the end.
    pub fn restore(stored: Vec<String>, settings: String) -> (r: Preference)
        ensures
            r@.recent_files == restored(paths_of(stored@)),
            r@.settings == settings@,
            well_formed(r@.recent_files),
    {
        let mut r = Preference::new(settings);
        let ghost paths = paths_of(stored@);
        let mut i: usize = stored.len();
        assert(paths.skip(i as int) =~= Seq::<Seq<char>>::empty());
        while i > 0
            invariant
                i <= stored.len(),
                paths == paths_of(stored@),
                r@.recent_files == restored(paths.skip(i as int)),
                r@.settings == settings@,
            decreases i,
        {
            i -= 1;
            assert(paths.skip(i as int).drop_first() =~= paths.skip(i + 1));
            assert(paths.skip(i as int).first() == stored@[i as int]@);
            r.add_recent_file(stored[i].as_str());
        }
        proof {
            assert(paths.skip(0) =~= paths);
            lemma_restored_well_formed(paths);
        }
        r
    }

    /// Makes `path` the most recently used file: it goes to the front, any
    /// earlier occurrence leaves, and the oldest entries beyond
    /// `MAX_RECENT_FILES` are dropped.
    pub fn add_recent_file(&mut self, path: &str)
        ensures
            final(self)@.recent_files == with_front(old(self)@.recent_files, path@),
            final(self)@.settings == old(self)@.settings,
            final(self)@.recent_files[0] == path@,
            well_formed(final(self)@.recent_files),
    {
        proof {
            use_type_invariant(&*self);
            lemma_with_front_key(old(self)@.recent_files, path@);
            lemma_with_front_well_formed(old(self)@.recent_files, path@);
        }
        let key: String = path.to_owned();
        let mut fresh: Vec<String> = copy_without(&self.recent_files, &key);
        proof {
            lemma_without_contains(paths_of(self.recent_files@), key@);
            assert(paths_of(fresh@.insert(0, key)) =~= seq![key@] + paths_of(fresh@));
        }
        fresh.insert(0, key);
        fresh.truncate(MAX_RECENT_FILES);
        assert(paths_of(fresh@) =~= with_front(old(self)@.recent_files, path@));
        self.recent_files = fresh;
    }

    /// Takes every occurrence of `path` out of the recent-file list.
    pub fn remove_recent_file(&mut self, path: &str)
        ensures
            final(self)@.recent_files == without(old(self)@.recent_files, path@),
            final(self)@.settings == old(self)@.settings,
            !final(self)@.recent_files.contains(path@),
            well_formed(final(self)@.recent_files),
    {
        proof {
            use_type_invariant(&*self);
            lemma_without_contains(old(self)@.recent_files, path@);
            lemma_without_no_duplicates(old(self)@.recent_files, path@);
        }
        let key: String = path.to_owned();
        let kept: Vec<String> = copy_without(&self.recent_files, &key);
        self.recent_files = kept;
    }

    /// A copy of the recent-file list, most recent first.
    pub fn recent_files(&self) -> (list: Vec<String>)
        ensures
            paths_of(list@) == self@.recent_files,
            well_formed(paths_of(list@)),
    {
        proof {
            use_type_invariant(self);
        }
        copy_files(&self.recent_files)
    }

    /// A copy of the settings kept beside the list.
    pub fn settings(&self) -> (text: String)
        ensures
            text@ == self@.settings,
    {
        self.settings.clone()
    }

    /// Whether `path` is in the recent-file list.
    pub fn is_recent(&self, path: &str) -> (found: bool)
        ensures
            found == self@.recent_files.contains(path@),
    {
        let key: String = path.to_owned();
        let n: usize = self.recent_files.len();
        let mut i: usize = 0;
        while i < n
            invariant
                i <= n,
                n == self.recent_files.len(),
                key@ == path@,
                forall|j: int| 0 <= j < i ==> paths_of(self.recent_files@)[j] != path@,
            decreases n - i,
        {
            if self.recent_files[i] == key {
                assert(paths_of(self.recent_files@)[i as int] == path@);
                return true;
            }
            i += 1;
        }
        false
    }

    /// An independent copy of these preferences.
    pub fn snapshot(&self) -> (copy: Preference)
        ensures
            copy@ == self@,
    {
        proof {
            use_type_invariant(self);
        }
        Preference { recent_files: copy_files(&self.recent_files), settings: self.settings.clone() }
    }
}

impl Default for Preference {
    /// Preferences with no recent file and empty settings.
    fn default() -> (r: Preference)
        ensures
            r@.recent_files == Seq::<Seq<char>>::empty(),
            r@.settings == Seq::<char>::empty(),
    {
        Preference::new(String::new())
    }
}

/// A copy of `files`, entry by entry.
fn copy_files(files: &Vec<String>) -> (copy: Vec<String>)
    ensures
        paths_of(copy@) == paths_of(files@),
{
    let mut copy: Vec<String> = Vec::new();
    let n: usize = files.len();
    let mut i: usize = 0;
    while i < n
        invariant
            i <= n,
            n == files.len(),
            copy@ == files@.take(i as int),
        decreases n - i,
    {
        copy.push(files[i].clone());
        assert(copy@ =~= files@.take(i + 1));
        i += 1;
    }
    assert(files@.take(n as int) =~= files@);
    copy
}

} // verus!
