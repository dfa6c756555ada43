//! The entries of a directory and the order of their listing.

use crate::text::decimal;
use crate::text::decimal_digits;
use crate::paths::file_name;
use crate::paths::file_name_or_empty;
use crate::sorting::indices;
use crate::sorting::keys_view;
use crate::sorting::sort_order;
use crate::sorting::sorted_order;
use crate::sorting::SortKey;
use crate::text::has_prefix;
use crate::text::texts;
use crate::text::chars_of;
use crate::tools::lowercase;
use crate::tools::lowercased;
use vstd::prelude::*;
use vstd::utf8::encode_utf8;

verus! {

/// An entry of a directory.
#[derive(Debug, PartialEq, Eq)]
pub struct FileInfo {
    pub name: String,
    pub path: String,
    pub is_directory: bool,
    /// The size in bytes; zero for a directory.
    pub size: u64,
}

/// The mathematical value of a [`FileInfo`].
pub ghost struct FileInfoView {
    pub name: Seq<char>,
    pub path: Seq<char>,
    pub is_directory: bool,
    pub size: u64,
}

impl View for FileInfo {
    type V = FileInfoView;

    open spec fn view(&self) -> FileInfoView {
        FileInfoView {
            name: self.name@,
            path: self.path@,
            is_directory: self.is_directory,
            size: self.size,
        }
    }
}

impl Clone for FileInfo {
    fn clone(&self) -> (copy: Self)
        ensures
            copy == *self,
    {
        FileInfo {
            name: self.name.clone(),
            path: self.path.clone(),
            is_directory: self.is_directory,
            size: self.size,
        }
    }
}

impl FileInfo {
    /// The entry for a file or a directory; a directory is listed with size zero,
    /// whatever length is given for it.
    pub fn new(name: String, path: String, is_directory: bool, length: u64) -> (entry: Self)
        ensures
            entry@ == (FileInfoView {
                name: name@,
                path: path@,
                is_directory,
                size: if is_directory {
                    0
                } else {
                    length
                },
            }),
    {
        FileInfo { name, path, is_directory, size: if is_directory {
            0
        } else {
            length
        } }
    }
}

/// The values of a list of entries.
pub open spec fn entries_view(entries: Seq<FileInfo>) -> Seq<FileInfoView> {
    entries.map_values(|e: FileInfo| e@)
}

/// The key by which an entry is listed: directories first, and within each group by
/// the lower-case form of the name.
pub open spec fn entry_key(entry: FileInfoView) -> SortKey {
    (entry.is_directory, encode_utf8(lowercased(entry.name)))
}

/// The key by which a directory is listed: the lower-case form of its name.
pub open spec fn directory_key(path: Seq<char>) -> SortKey {
    (false, encode_utf8(lowercased(file_name_or_empty(path))))
}

/// A list rearranged: the item at each place is the one that the order names.
pub open spec fn arranged<T>(items: Seq<T>, order: Seq<int>) -> Seq<T> {
    Seq::new(order.len(), |i: int| items[order[i]])
}

/// The entries of a directory in the order of their listing: directories first, and
/// within each group by the lower-case form of the name; entries of equal rank keep
/// their order.
pub open spec fn listed(entries: Seq<FileInfoView>) -> Seq<FileInfoView> {
    arranged(entries, sorted_order(entries.map_values(|e: FileInfoView| entry_key(e))))
}

/// Directories in the order of their listing: by the lower-case form of their names;
/// directories of equal rank keep their order.
pub open spec fn listed_directories(paths: Seq<Seq<char>>) -> Seq<Seq<char>> {
    arranged(paths, sorted_order(paths.map_values(|p: Seq<char>| directory_key(p))))
}

/// Puts the entries of a directory in the order of their listing.
pub fn sort_entries(entries: &Vec<FileInfo>) -> (sorted: Vec<FileInfo>)
    ensures
        entries_view(sorted@) == listed(entries_view(entries@)),
{
    let ghost all = entries_view(entries@);
    let mut keys: Vec<(bool, String)> = Vec::new();
    let mut i: usize = 0;
    while i < entries.len()
        invariant
            i <= entries@.len(),
            all == entries_view(entries@),
            keys@.len() == i,
            keys_view(keys@) == all.take(i as int).map_values(|e: FileInfoView| entry_key(e)),
        decreases entries@.len() - i,
    {
        let ghost before = keys_view(keys@);
        keys.push((entries[i].is_directory, lowercase(entries[i].name.as_str())));
        proof {
            assert(all[i as int] == entries@[i as int]@);
            assert(keys_view(keys@) =~= before.push(entry_key(all[i as int])));
            assert(all.take(i + 1) =~= all.take(i as int).push(all[i as int]));
            assert(keys_view(keys@) =~= all.take(i + 1).map_values(
                |e: FileInfoView| entry_key(e),
            ));
        }
        i += 1;
    }
    assert(all.take(entries@.len() as int) =~= all);
    let order = sort_order(&keys);
    let ghost goal = listed(all);
    let mut sorted: Vec<FileInfo> = Vec::new();
    let mut k: usize = 0;
    while k < order.len()
        invariant
            k <= order@.len(),
            order@.len() == entries@.len(),
            all == entries_view(entries@),
            goal == arranged(all, indices(order@)),
            forall|j: int| 0 <= j < order@.len() ==> (#[trigger] order@[j]) < entries@.len(),
            sorted@.len() == k,
            entries_view(sorted@) == goal.take(k as int),
        decreases order@.len() - k,
    {
        let ghost before = entries_view(sorted@);
        sorted.push(entries[order[k]].clone());
        proof {
            assert(goal[k as int] == all[indices(order@)[k as int]]);
            assert(all[order@[k as int] as int] == entries@[order@[k as int] as int]@);
            assert(entries_view(sorted@) =~= before.push(goal[k as int]));
            assert(goal.take(k + 1) =~= goal.take(k as int).push(goal[k as int]));
        }
        k += 1;
    }
    assert(goal.take(order@.len() as int) =~= goal);
    sorted
}

/// Puts directories in the order of their listing.
pub fn sort_directories(paths: &Vec<String>) -> (sorted: Vec<String>)
    ensures
        texts(sorted@) == listed_directories(texts(paths@)),
{
    let ghost all = texts(paths@);
    let mut keys: Vec<(bool, String)> = Vec::new();
    let mut i: usize = 0;
    while i < paths.len()
        invariant
            i <= paths@.len(),
            all == texts(paths@),
            keys@.len() == i,
            keys_view(keys@) == all.take(i as int).map_values(|p: Seq<char>| directory_key(p)),
        decreases paths@.len() - i,
    {
        let ghost before = keys_view(keys@);
        let name = file_name(paths[i].as_str());
        keys.push((false, lowercase(name.as_str())));
        proof {
            assert(all[i as int] == paths@[i as int]@);
            assert(keys_view(keys@) =~= before.push(directory_key(all[i as int])));
            assert(all.take(i + 1) =~= all.take(i as int).push(all[i as int]));
            assert(keys_view(keys@) =~= all.take(i + 1).map_values(
                |p: Seq<char>| directory_key(p),
            ));
        }
        i += 1;
    }
    assert(all.take(paths@.len() as int) =~= all);
    let order = sort_order(&keys);
    let ghost goal = listed_directories(all);
    let mut sorted: Vec<String> = Vec::new();
    let mut k: usize = 0;
    while k < order.len()
        invariant
            k <= order@.len(),
            order@.len() == paths@.len(),
            all == texts(paths@),
            goal == arranged(all, indices(order@)),
            forall|j: int| 0 <= j < order@.len() ==> (#[trigger] order@[j]) < paths@.len(),
            sorted@.len() == k,
            texts(sorted@) == goal.take(k as int),
        decreases order@.len() - k,
    {
        let ghost before = texts(sorted@);
        sorted.push(paths[order[k]].clone());
        proof {
            assert(goal[k as int] == all[indices(order@)[k as int]]);
            assert(all[order@[k as int] as int] == paths@[order@[k as int] as int]@);
            assert(texts(sorted@) =~= before.push(goal[k as int]));
            assert(goal.take(k + 1) =~= goal.take(k as int).push(goal[k as int]));
        }
        k += 1;
    }
    assert(goal.take(order@.len() as int) =~= goal);
    sorted
}

/// True for the names of hidden entries, which begin with a dot.
pub fn is_hidden(name: &str) -> (hidden: bool)
    ensures
        hidden == "."@.is_prefix_of(name@),
{
    let chars = chars_of(name);
    has_prefix(&chars, ".")
}

/// The word for the kind of an entry.
pub open spec fn kind_word(is_directory: bool, is_file: bool) -> Seq<char> {
    if is_directory {
        "directory"@
    } else if is_file {
        "file"@
    } else {
        "unknown"@
    }
}

/// A line that tells the kind and the size of an entry.
pub fn describe(is_directory: bool, is_file: bool, size: u64) -> (line: String)
    ensures
        line@ == "Type: "@ + kind_word(is_directory, is_file) + ", Size: "@ + decimal_digits(
            size as nat,
        ) + " bytes"@,
{
    let kind = if is_directory {
        "directory"
    } else if is_file {
        "file"
    } else {
        "unknown"
    };
    let size = decimal(size);
    String::from_str("Type: ").concat(kind).concat(", Size: ").concat(size.as_str()).concat(
        " bytes",
    )
}

} // verus!
