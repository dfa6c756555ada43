//! Pairing the source files of a directory with their test files.

use crate::files::first_corresponding;
use crate::files::is_source_path;
use crate::files::is_test_path;
use crate::text::texts;
use crate::files::FileService;
use crate::paths::file_name_or_empty;
use crate::paths::name_extension;
use crate::text::copy_text;
use crate::text::text_view;
use crate::text::chars_of;
use crate::text::has_prefix;
use crate::text::str_eq;
use vstd::prelude::*;

verus! {

/// The source files of a directory, each with its test file where it has one.
#[derive(Debug, PartialEq, Eq)]
pub struct FileAnalysisResult {
    /// Each source file once, in the order in which the files were listed, with the
    /// test file that was found for it.
    pub source_files: Vec<(String, Option<String>)>,
    /// The number of source files.
    pub file_count: usize,
    /// The number of source files that have a test file.
    pub test_count: usize,
}

/// The characters of a list of source files with their test files.
pub open spec fn pairs_view(pairs: Seq<(String, Option<String>)>) -> Seq<
    (Seq<char>, Option<Seq<char>>),
> {
    pairs.map_values(|p: (String, Option<String>)| (p.0@, text_view(p.1)))
}

/// The characters of the directories to which an analysis is limited, if it is.
pub open spec fn dirs_view(dirs: Option<Vec<String>>) -> Option<Seq<Seq<char>>> {
    match dirs {
        Some(list) => Some(texts(list@)),
        None => None,
    }
}

/// True where a path is to be looked at: no limit is set, or the path begins with one
/// of the given directories.
pub open spec fn is_included(path: Seq<char>, dirs: Option<Seq<Seq<char>>>) -> bool {
    match dirs {
        None => true,
        Some(list) => exists|i: int| 0 <= i < list.len() && (#[trigger] list[i]).is_prefix_of(path),
    }
}

/// True where a path is a test file.
pub open spec fn is_test(path: Seq<char>) -> bool {
    is_test_path(path, file_name_or_empty(path))
}

/// True where a path is a source file and no test file.
pub open spec fn is_source(path: Seq<char>) -> bool {
    !is_test(path) && is_source_path(path, name_extension(file_name_or_empty(path)))
}

/// The test files among the listed paths, in their order.
pub open spec fn selected_tests(paths: Seq<Seq<char>>, dirs: Option<Seq<Seq<char>>>) -> Seq<
    Seq<char>,
>
    decreases paths.len(),
{
    if paths.len() == 0 {
        seq![]
    } else {
        let before = selected_tests(paths.drop_last(), dirs);
        if is_included(paths.last(), dirs) && is_test(paths.last()) {
            before.push(paths.last())
        } else {
            before
        }
    }
}

/// The source files among the listed paths, in their order, each once.
pub open spec fn selected_sources(paths: Seq<Seq<char>>, dirs: Option<Seq<Seq<char>>>) -> Seq<
    Seq<char>,
>
    decreases paths.len(),
{
    if paths.len() == 0 {
        seq![]
    } else {
        let before = selected_sources(paths.drop_last(), dirs);
        if is_included(paths.last(), dirs) && is_source(paths.last()) && !before.contains(
            paths.last(),
        ) {
            before.push(paths.last())
        } else {
            before
        }
    }
}

/// The test file of the source file at index `at`: the last of the test files whose
/// first corresponding source file is that one.
pub open spec fn assigned_test(tests: Seq<Seq<char>>, sources: Seq<Seq<char>>, at: int) -> Option<
    Seq<char>,
>
    decreases tests.len(),
{
    if tests.len() == 0 {
        None
    } else if first_corresponding(tests.last(), sources) == at {
        Some(tests.last())
    } else {
        assigned_test(tests.drop_last(), sources, at)
    }
}

/// The source files among the listed paths, each with its test file.
pub open spec fn pairing(paths: Seq<Seq<char>>, dirs: Option<Seq<Seq<char>>>) -> Seq<
    (Seq<char>, Option<Seq<char>>),
> {
    let sources = selected_sources(paths, dirs);
    let tests = selected_tests(paths, dirs);
    Seq::new(sources.len(), |i: int| (sources[i], assigned_test(tests, sources, i)))
}

/// The number of source files of a list that have a test file.
pub open spec fn tested_count(pairs: Seq<(Seq<char>, Option<Seq<char>>)>) -> nat
    decreases pairs.len(),
{
    if pairs.len() == 0 {
        0
    } else {
        tested_count(pairs.drop_last()) + if pairs.last().1 is Some {
            1nat
        } else {
            0nat
        }
    }
}

/// The source files of a pairing.
pub open spec fn sources_of(pairs: Seq<(Seq<char>, Option<Seq<char>>)>) -> Seq<Seq<char>> {
    pairs.map_values(|p: (Seq<char>, Option<Seq<char>>)| p.0)
}

/// No source file is selected twice, and each selected source file is one of the paths.
pub proof fn lemma_selected_sources_distinct(paths: Seq<Seq<char>>, dirs: Option<Seq<Seq<char>>>)
    ensures
        selected_sources(paths, dirs).no_duplicates(),
        forall|i: int|
            0 <= i < selected_sources(paths, dirs).len() ==> paths.contains(
                #[trigger] selected_sources(paths, dirs)[i],
            ) && is_source(selected_sources(paths, dirs)[i]),
    decreases paths.len(),
{
    if paths.len() > 0 {
        let before = selected_sources(paths.drop_last(), dirs);
        lemma_selected_sources_distinct(paths.drop_last(), dirs);
        let all = selected_sources(paths, dirs);
        assert forall|i: int| 0 <= i < all.len() implies paths.contains(#[trigger] all[i])
            && is_source(all[i]) by {
            if i < before.len() {
                assert(all[i] == before[i]);
                let k = choose|k: int|
                    0 <= k < paths.drop_last().len() && paths.drop_last()[k] == before[i];
                assert(paths[k] == before[i]);
            } else {
                assert(all[i] == paths.last());
                assert(paths[paths.len() - 1] == paths.last());
            }
        }
    }
}

/// A pairing lists each source file once: the source files of a pairing are those
/// selected.
pub proof fn lemma_pairing_lists_each_source_once(
    paths: Seq<Seq<char>>,
    dirs: Option<Seq<Seq<char>>>,
)
    ensures
        sources_of(pairing(paths, dirs)) == selected_sources(paths, dirs),
        sources_of(pairing(paths, dirs)).no_duplicates(),
{
    lemma_selected_sources_distinct(paths, dirs);
    assert(sources_of(pairing(paths, dirs)) =~= selected_sources(paths, dirs));
}

/// At most every source file has a test file.
pub proof fn lemma_tested_count_bound(pairs: Seq<(Seq<char>, Option<Seq<char>>)>)
    ensures
        tested_count(pairs) <= pairs.len(),
    decreases pairs.len(),
{
    if pairs.len() > 0 {
        lemma_tested_count_bound(pairs.drop_last());
    }
}

/// True where the list holds the string.
pub fn holds(list: &Vec<String>, s: &str) -> (yes: bool)
    ensures
        yes == texts(list@).contains(s@),
{
    let mut i: usize = 0;
    while i < list.len()
        invariant
            i <= list@.len(),
            forall|j: int| 0 <= j < i ==> texts(list@)[j] != s@,
        decreases list@.len() - i,
    {
        assert(texts(list@)[i as int] == list@[i as int]@);
        if str_eq(list[i].as_str(), s) {
            return true;
        }
        i += 1;
    }
    false
}

/// Decides whether a path is to be looked at under the given limit.
pub fn included(path: &str, dirs: &Option<Vec<String>>) -> (yes: bool)
    ensures
        yes == is_included(path@, dirs_view(*dirs)),
{
    match dirs {
        None => true,
        Some(list) => {
            let chars = chars_of(path);
            let mut i: usize = 0;
            while i < list.len()
                invariant
                    i <= list@.len(),
                    chars@ == path@,
                    dirs_view(*dirs) == Some(texts(list@)),
                    forall|j: int| 0 <= j < i ==> !(#[trigger] texts(list@)[j]).is_prefix_of(path@),
                decreases list@.len() - i,
            {
                assert(texts(list@)[i as int] == list@[i as int]@);
                if has_prefix(&chars, list[i].as_str()) {
                    proof {
                        let given = dirs_view(*dirs)->Some_0;
                        assert(given[i as int].is_prefix_of(path@));
                    }
                    return true;
                }
                i += 1;
            }
            false
        },
    }
}

impl FileService {
    /// Sorts the listed paths into test files and source files.
    pub fn classify(&self, paths: &Vec<String>, include_dirs: &Option<Vec<String>>) -> (sorted: (
        Vec<String>,
        Vec<String>,
    ))
        ensures
            texts(sorted.0@) == selected_tests(texts(paths@), dirs_view(*include_dirs)),
            texts(sorted.1@) == selected_sources(texts(paths@), dirs_view(*include_dirs)),
    {
        let ghost all = texts(paths@);
        let ghost dirs = dirs_view(*include_dirs);
        let mut tests: Vec<String> = Vec::new();
        let mut sources: Vec<String> = Vec::new();
        let mut i: usize = 0;
        assert(texts(tests@) =~= selected_tests(all.take(0), dirs));
        assert(texts(sources@) =~= selected_sources(all.take(0), dirs));
        while i < paths.len()
            invariant
                i <= paths@.len(),
                all == texts(paths@),
                dirs == dirs_view(*include_dirs),
                texts(tests@) == selected_tests(all.take(i as int), dirs),
                texts(sources@) == selected_sources(all.take(i as int), dirs),
            decreases paths@.len() - i,
        {
            let path = paths[i].as_str();
            proof {
                assert(all.take(i + 1).drop_last() == all.take(i as int));
                assert(all.take(i + 1).last() == path@);
            }
            let ghost tests_before = texts(tests@);
            let ghost sources_before = texts(sources@);
            if included(path, include_dirs) {
                if self.is_test_file(path) {
                    tests.push(paths[i].clone());
                    assert(texts(tests@) =~= tests_before.push(path@));
                } else if self.is_source_file(path) {
                    if !holds(&sources, path) {
                        sources.push(paths[i].clone());
                        assert(texts(sources@) =~= sources_before.push(path@));
                    }
                }
            }
            i += 1;
        }
        assert(all.take(paths@.len() as int) == all);
        (tests, sources)
    }

    /// Finds for each source file its test file among the given test files.
    pub fn assign_tests(&self, tests: &Vec<String>, sources: &Vec<String>) -> (assigned: Vec<
        Option<String>,
    >)
        ensures
            assigned@.len() == sources@.len(),
            forall|i: int|
                0 <= i < sources@.len() ==> text_view(#[trigger] assigned@[i]) == assigned_test(
                    texts(tests@),
                    texts(sources@),
                    i,
                ),
    {
        let mut assigned: Vec<Option<String>> = Vec::new();
        while assigned.len() < sources.len()
            invariant
                assigned@.len() <= sources@.len(),
                forall|i: int| 0 <= i < assigned@.len() ==> (#[trigger] assigned@[i]) is None,
            decreases sources@.len() - assigned@.len(),
        {
            assigned.push(None);
        }
        let ghost all = texts(tests@);
        let mut k: usize = 0;
        while k < tests.len()
            invariant
                k <= tests@.len(),
                all == texts(tests@),
                assigned@.len() == sources@.len(),
                forall|i: int|
                    0 <= i < sources@.len() ==> text_view(#[trigger] assigned@[i]) == assigned_test(
                        all.take(k as int),
                        texts(sources@),
                        i,
                    ),
            decreases tests@.len() - k,
        {
            let test = tests[k].as_str();
            proof {
                assert(all.take(k + 1).drop_last() == all.take(k as int));
                assert(all.take(k + 1).last() == test@);
            }
            let at = self.position_of_source(test, sources);
            if at < sources.len() {
                assigned.set(at, Some(tests[k].clone()));
            }
            k += 1;
        }
        assert(all.take(tests@.len() as int) == all);
        assigned
    }

    /// Pairs the source files among the listed paths with their test files and counts
    /// them. With `include_dirs`, only the paths that begin with one of them are looked at.
    pub fn find_test_files(&self, paths: &Vec<String>, include_dirs: &Option<Vec<String>>) -> (result:
        FileAnalysisResult)
        ensures
            pairs_view(result.source_files@) == pairing(texts(paths@), dirs_view(*include_dirs)),
            result.file_count == result.source_files@.len(),
            result.test_count == tested_count(pairs_view(result.source_files@)),
            result.test_count <= result.file_count,
            sources_of(pairs_view(result.source_files@)).no_duplicates(),
    {
        proof {
            lemma_pairing_lists_each_source_once(texts(paths@), dirs_view(*include_dirs));
            lemma_tested_count_bound(pairing(texts(paths@), dirs_view(*include_dirs)));
        }
        let (tests, sources) = self.classify(paths, include_dirs);
        let assigned = self.assign_tests(&tests, &sources);
        let ghost goal = pairing(texts(paths@), dirs_view(*include_dirs));
        let mut source_files: Vec<(String, Option<String>)> = Vec::new();
        let mut test_count: usize = 0;
        let mut i: usize = 0;
        assert(pairs_view(source_files@) =~= goal.take(0));
        while i < sources.len()
            invariant
                i <= sources@.len(),
                assigned@.len() == sources@.len(),
                goal.len() == sources@.len(),
                forall|j: int|
                    0 <= j < sources@.len() ==> #[trigger] goal[j] == (
                        sources@[j]@,
                        text_view(assigned@[j]),
                    ),
                source_files@.len() == i,
                pairs_view(source_files@) == goal.take(i as int),
                test_count == tested_count(goal.take(i as int)),
                test_count <= i,
            decreases sources@.len() - i,
        {
            let test = copy_text(&assigned[i]);
            let ghost before = pairs_view(source_files@);
            proof {
                assert(goal.take(i + 1).drop_last() == goal.take(i as int));
                assert(goal.take(i + 1).last() == goal[i as int]);
            }
            if test.is_some() {
                test_count += 1;
            }
            source_files.push((sources[i].clone(), test));
            assert(pairs_view(source_files@) =~= before.push(goal[i as int]));
            assert(goal.take(i + 1) =~= goal.take(i as int).push(goal[i as int]));
            i += 1;
        }
        assert(goal.take(sources@.len() as int) == goal);
        let file_count = source_files.len();
        FileAnalysisResult { source_files, file_count, test_count }
    }
}

} // verus!
