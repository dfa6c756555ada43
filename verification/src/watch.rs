//! Watched directories and the events that report changes of their files.

use crate::paths::relative_path;
use crate::paths::relative_to;
use crate::text::str_eq;
use vstd::prelude::*;

verus! {

/// What happened to a watched file.
#[derive(Debug, Clone, Copy, PartialEq, Eq, Structural)]
pub enum ChangeKind {
    Created,
    Modified,
    Removed,
    Accessed,
    Other,
    Unknown,
}

impl ChangeKind {
    /// The word under which the kind is reported.
    pub open spec fn label_spec(self) -> Seq<char> {
        match self {
            ChangeKind::Created => "created"@,
            ChangeKind::Modified => "modified"@,
            ChangeKind::Removed => "removed"@,
            ChangeKind::Accessed => "accessed"@,
            ChangeKind::Other => "other"@,
            ChangeKind::Unknown => "unknown"@,
        }
    }

    /// The word under which the kind is reported.
    pub fn label(&self) -> (word: &'static str)
        ensures
            word@ == self.label_spec(),
    {
        match self {
            ChangeKind::Created => "created",
            ChangeKind::Modified => "modified",
            ChangeKind::Removed => "removed",
            ChangeKind::Accessed => "accessed",
            ChangeKind::Other => "other",
            ChangeKind::Unknown => "unknown",
        }
    }
}

/// A change of a watched file, as it is reported to the user interface.
#[derive(Debug, PartialEq, Eq)]
pub struct FileChangeEvent {
    /// The file's path, seen from the watched directory where it lies below it.
    pub path: String,
    /// The kind of change.
    pub kind: String,
    /// The watcher that saw the change.
    pub watch_id: String,
}

/// The mathematical value of a [`FileChangeEvent`].
pub ghost struct FileChangeEventView {
    pub path: Seq<char>,
    pub kind: Seq<char>,
    pub watch_id: Seq<char>,
}

impl View for FileChangeEvent {
    type V = FileChangeEventView;

    open spec fn view(&self) -> FileChangeEventView {
        FileChangeEventView { path: self.path@, kind: self.kind@, watch_id: self.watch_id@ }
    }
}

/// The event that reports a change of `path`, seen by the watcher `watch_id` of the
/// directory `base_path`.
pub fn change_event(path: &str, base_path: &str, kind: ChangeKind, watch_id: &str) -> (event:
    FileChangeEvent)
    ensures
        event@ == (FileChangeEventView {
            path: relative_to(path@, base_path@),
            kind: kind.label_spec(),
            watch_id: watch_id@,
        }),
{
    FileChangeEvent {
        path: relative_path(path, base_path),
        kind: String::from_str(kind.label()),
        watch_id: String::from_str(watch_id),
    }
}

/// The event that is sent to try out the delivery of events.
pub fn sample_event() -> (event: FileChangeEvent)
    ensures
        event@ == (FileChangeEventView {
            path: "/test/path/test-file.txt"@,
            kind: ChangeKind::Modified.label_spec(),
            watch_id: "test-watcher-id"@,
        }),
{
    FileChangeEvent {
        path: String::from_str("/test/path/test-file.txt"),
        kind: String::from_str(ChangeKind::Modified.label()),
        watch_id: String::from_str("test-watcher-id"),
    }
}

/// Why a directory cannot be watched, or a watcher cannot be stopped.
#[derive(Debug, PartialEq, Eq)]
pub enum WatchError {
    /// No channel to the user interface has been set up.
    NotReady,
    /// The path to watch does not exist.
    MissingPath(String),
    /// A watcher of this id is at work.
    AlreadyWatching(String),
    /// No watcher of this id is at work.
    NotWatching(String),
}

/// The mathematical value of a [`WatchError`].
pub ghost enum WatchErrorView {
    NotReady,
    MissingPath(Seq<char>),
    AlreadyWatching(Seq<char>),
    NotWatching(Seq<char>),
}

impl View for WatchError {
    type V = WatchErrorView;

    open spec fn view(&self) -> WatchErrorView {
        match *self {
            WatchError::NotReady => WatchErrorView::NotReady,
            WatchError::MissingPath(path) => WatchErrorView::MissingPath(path@),
            WatchError::AlreadyWatching(id) => WatchErrorView::AlreadyWatching(id@),
            WatchError::NotWatching(id) => WatchErrorView::NotWatching(id@),
        }
    }
}

impl WatchErrorView {
    /// The error's message.
    pub open spec fn message(self) -> Seq<char> {
        match self {
            WatchErrorView::NotReady => "App handle not set. Call set_app_handle first."@,
            WatchErrorView::MissingPath(path) => "Path does not exist: "@ + path,
            WatchErrorView::AlreadyWatching(id) => "Already watching with ID: "@ + id,
            WatchErrorView::NotWatching(id) => "No watcher found with ID: "@ + id,
        }
    }
}

impl WatchError {
    /// The error's message.
    pub fn message(&self) -> (text: String)
        ensures
            text@ == self@.message(),
    {
        match self {
            WatchError::NotReady => String::from_str(
                "App handle not set. Call set_app_handle first.",
            ),
            WatchError::MissingPath(path) => String::from_str("Path does not exist: ").concat(
                path.as_str(),
            ),
            WatchError::AlreadyWatching(id) => String::from_str(
                "Already watching with ID: ",
            ).concat(id.as_str()),
            WatchError::NotWatching(id) => String::from_str("No watcher found with ID: ").concat(
                id.as_str(),
            ),
        }
    }
}

/// The message that reports a failure of a watcher.
pub fn watcher_failure(watch_id: &str, error: &str) -> (message: String)
    ensures
        message@ == "Error in watcher "@ + watch_id@ + ": "@ + error@,
{
    String::from_str("Error in watcher ").concat(watch_id).concat(": ").concat(error)
}

/// The ids of a list of watchers.
pub open spec fn ids(entries: Seq<(Seq<char>, Seq<char>)>) -> Seq<Seq<char>> {
    entries.map_values(|e: (Seq<char>, Seq<char>)| e.0)
}

/// The characters of a list of watchers.
pub open spec fn entries_view(entries: Seq<(String, String)>) -> Seq<(Seq<char>, Seq<char>)> {
    entries.map_values(|e: (String, String)| (e.0@, e.1@))
}

/// The index of the watcher with the given id, or the number of watchers where there
/// is none.
pub open spec fn index_of_id(entries: Seq<(Seq<char>, Seq<char>)>, id: Seq<char>) -> int
    decreases entries.len(),
{
    if entries.len() == 0 || entries[0].0 == id {
        0
    } else {
        1 + index_of_id(entries.drop_first(), id)
    }
}

/// `index_of_id` lies within the list's bounds, no earlier watcher has the id, and the
/// watcher at it, if any, has the id.
pub proof fn lemma_index_of_id(entries: Seq<(Seq<char>, Seq<char>)>, id: Seq<char>)
    ensures
        0 <= index_of_id(entries, id) <= entries.len(),
        forall|j: int| 0 <= j < index_of_id(entries, id) ==> (#[trigger] entries[j]).0 != id,
        index_of_id(entries, id) < entries.len() ==> entries[index_of_id(entries, id)].0 == id,
        index_of_id(entries, id) == entries.len() <==> !ids(entries).contains(id),
    decreases entries.len(),
{
    if entries.len() == 0 || entries[0].0 == id {
        if entries.len() > 0 {
            assert(ids(entries)[0] == id);
        }
    } else {
        let rest = entries.drop_first();
        lemma_index_of_id(rest, id);
        assert forall|j: int| 0 <= j < index_of_id(entries, id) implies (#[trigger] entries[j]).0
            != id by {
            if j > 0 {
                assert(entries[j] == rest[j - 1]);
            }
        }
        if ids(rest).contains(id) {
            let k = choose|k: int| 0 <= k < ids(rest).len() && ids(rest)[k] == id;
            assert(ids(entries)[k + 1] == id);
        }
        if ids(entries).contains(id) {
            let k = choose|k: int| 0 <= k < ids(entries).len() && ids(entries)[k] == id;
            assert(k > 0);
            assert(ids(rest)[k - 1] == id);
        }
    }
}

/// The directories that are being watched, each under the id of its watcher.
pub struct WatchRegistry {
    entries: Vec<(String, String)>,
}

impl View for WatchRegistry {
    type V = Seq<(Seq<char>, Seq<char>)>;

    closed spec fn view(&self) -> Seq<(Seq<char>, Seq<char>)> {
        entries_view(self.entries@)
    }
}

impl WatchRegistry {
    #[verifier::type_invariant]
    spec fn distinct(self) -> bool {
        ids(entries_view(self.entries@)).no_duplicates()
    }

    /// A registry without watchers.
    pub fn new() -> (registry: Self)
        ensures
            registry@ == Seq::<(Seq<char>, Seq<char>)>::empty(),
    {
        let registry = WatchRegistry { entries: Vec::new() };
        assert(registry@ =~= Seq::<(Seq<char>, Seq<char>)>::empty());
        registry
    }

    fn position(&self, watch_id: &str) -> (at: usize)
        ensures
            at == index_of_id(self@, watch_id@),
            at <= self@.len(),
            self@.len() == self.entries@.len(),
    {
        let ghost all = entries_view(self.entries@);
        let mut i: usize = 0;
        assert(all.skip(0) == all);
        while i < self.entries.len()
            invariant
                i <= self.entries@.len(),
                all == entries_view(self.entries@),
                index_of_id(all, watch_id@) == i + index_of_id(all.skip(i as int), watch_id@),
            decreases self.entries@.len() - i,
        {
            assert(all.skip(i as int)[0] == (self.entries@[i as int].0@, self.entries@[i as int].1@));
            assert(all.skip(i as int).drop_first() == all.skip(i + 1));
            if str_eq(self.entries[i].0.as_str(), watch_id) {
                return i;
            }
            i += 1;
        }
        i
    }

    /// Whether a watcher of this id is at work.
    pub fn is_watching(&self, watch_id: &str) -> (yes: bool)
        ensures
            yes == ids(self@).contains(watch_id@),
    {
        let at = self.position(watch_id);
        proof {
            lemma_index_of_id(self@, watch_id@);
        }
        at < self.entries.len()
    }

    /// Decides whether a watcher may be started: the channel to the user interface
    /// must be set up, the path must exist, and the id must be free; the first of these
    /// that fails gives the error.
    pub fn check_start(&self, ready: bool, path_exists: bool, path: &str, watch_id: &str) -> (r: Result<
        (),
        WatchError,
    >)
        ensures
            match r {
                Ok(_) => ready && path_exists && !ids(self@).contains(watch_id@),
                Err(e) => e@ == if !ready {
                    WatchErrorView::NotReady
                } else if !path_exists {
                    WatchErrorView::MissingPath(path@)
                } else {
                    WatchErrorView::AlreadyWatching(watch_id@)
                } && !(ready && path_exists && !ids(self@).contains(watch_id@)),
            },
    {
        if !ready {
            Err(WatchError::NotReady)
        } else if !path_exists {
            Err(WatchError::MissingPath(String::from_str(path)))
        } else if self.is_watching(watch_id) {
            Err(WatchError::AlreadyWatching(String::from_str(watch_id)))
        } else {
            Ok(())
        }
    }

    /// Records a watcher. Where the id is taken, the path takes the place of the one
    /// recorded; otherwise the watcher is added at the end.
    pub fn insert(&mut self, watch_id: &str, path: &str)
        ensures
            final(self)@ == if ids(old(self)@).contains(watch_id@) {
                old(self)@.update(index_of_id(old(self)@, watch_id@), (watch_id@, path@))
            } else {
                old(self)@.push((watch_id@, path@))
            },
    {
        proof {
            use_type_invariant(&*self);
            lemma_index_of_id(self@, watch_id@);
        }
        let at = self.position(watch_id);
        let ghost before = self@;
        let entry = (String::from_str(watch_id), String::from_str(path));
        let mut entries: Vec<(String, String)> = Vec::new();
        assert(ids(entries_view(entries@)) =~= Seq::<Seq<char>>::empty());
        std::mem::swap(&mut self.entries, &mut entries);
        if at < entries.len() {
            entries.set(at, entry);
            proof {
                assert(entries_view(entries@) =~= before.update(at as int, (watch_id@, path@)));
                assert(ids(entries_view(entries@)) =~= ids(before));
            }
        } else {
            entries.push(entry);
            proof {
                assert(entries_view(entries@) =~= before.push((watch_id@, path@)));
                assert(ids(entries_view(entries@)) =~= ids(before).push(watch_id@));
            }
        }
        self.entries = entries;
    }

    /// Takes a watcher off the record; `NotWatching` where none has the id.
    pub fn remove(&mut self, watch_id: &str) -> (r: Result<(), WatchError>)
        ensures
            match r {
                Ok(_) => ids(old(self)@).contains(watch_id@) && final(self)@ == old(self)@.remove(
                    index_of_id(old(self)@, watch_id@),
                ),
                Err(e) => !ids(old(self)@).contains(watch_id@) && final(self)@ == old(self)@ && e@
                    == WatchErrorView::NotWatching(watch_id@),
            },
            !ids(final(self)@).contains(watch_id@),
    {
        proof {
            use_type_invariant(&*self);
            lemma_index_of_id(self@, watch_id@);
        }
        let at = self.position(watch_id);
        let ghost before = self@;
        if at < self.entries.len() {
            let mut entries: Vec<(String, String)> = Vec::new();
            assert(ids(entries_view(entries@)) =~= Seq::<Seq<char>>::empty());
            std::mem::swap(&mut self.entries, &mut entries);
            entries.remove(at);
            proof {
                let after = entries_view(entries@);
                assert(after =~= before.remove(at as int));
                assert(ids(after) =~= ids(before).remove(at as int));
                assert forall|i: int, j: int|
                    0 <= i < ids(after).len() && 0 <= j < ids(after).len() && i != j implies ids(
                    after,
                )[i] != ids(after)[j] by {
                    let a = if i < at { i } else { i + 1 };
                    let b = if j < at { j } else { j + 1 };
                    assert(ids(after)[i] == ids(before)[a]);
                    assert(ids(after)[j] == ids(before)[b]);
                }
                if ids(after).contains(watch_id@) {
                    let k = choose|k: int| 0 <= k < ids(after).len() && ids(after)[k] == watch_id@;
                    let a = if k < at { k } else { k + 1 };
                    assert(ids(before)[a] == watch_id@);
                    assert(ids(before)[at as int] == watch_id@);
                }
            }
            self.entries = entries;
            Ok(())
        } else {
            Err(WatchError::NotWatching(String::from_str(watch_id)))
        }
    }

    /// The watchers at work, each with its id and its path, in the order in which they
    /// were started.
    pub fn list(&self) -> (watchers: Vec<(String, String)>)
        ensures
            entries_view(watchers@) == self@,
            ids(self@).no_duplicates(),
    {
        proof {
            use_type_invariant(self);
        }
        let mut watchers: Vec<(String, String)> = Vec::new();
        let mut i: usize = 0;
        assert(entries_view(watchers@) =~= self@.take(0));
        while i < self.entries.len()
            invariant
                i <= self.entries@.len(),
                entries_view(watchers@) == self@.take(i as int),
            decreases self.entries@.len() - i,
        {
            let ghost before = entries_view(watchers@);
            watchers.push((self.entries[i].0.clone(), self.entries[i].1.clone()));
            assert(entries_view(watchers@) =~= before.push(self@[i as int]));
            assert(self@.take(i + 1) =~= self@.take(i as int).push(self@[i as int]));
            i += 1;
        }
        assert(self@.take(self.entries@.len() as int) =~= self@);
        watchers
    }
}

} // verus!
