//! Rules for telling test files from source files by their paths, and for finding the
//! one that belongs to the other.

use crate::paths::file_name;
use crate::paths::file_name_of;
use crate::paths::file_name_or_empty;
use crate::paths::name_extension;
use crate::paths::name_stem;
use crate::paths::parent;
use crate::paths::parent_or_empty;
use crate::paths::path_file_name;
use crate::paths::relative_path;
use crate::paths::relative_to;
use crate::paths::split_name;
use crate::text::chars_of;
use crate::text::contains_text;
use crate::text::has_prefix;
use crate::text::has_suffix;
use crate::text::has_text;
use crate::text::replace_all;
use crate::text::replaced;
use crate::text::same_chars;
use crate::text::slice_view;
use crate::text::starts_with;
use crate::text::str_eq;
use crate::text::texts;
use vstd::prelude::*;

verus! {

/// True where a path lies in a directory of tests.
pub open spec fn in_test_directory(path: Seq<char>) -> bool {
    contains_text(path, "/test/"@) || contains_text(path, "/tests/"@) || contains_text(
        path,
        "/spec/"@,
    ) || contains_text(path, "/specs/"@)
}

/// True where a file name follows one of the naming conventions for tests.
pub open spec fn is_test_name(name: Seq<char>) -> bool {
    "test_"@.is_prefix_of(name) || ".test.ts"@.is_suffix_of(name) || ".test.js"@.is_suffix_of(name)
        || ".test.tsx"@.is_suffix_of(name) || ".test.jsx"@.is_suffix_of(name)
        || "_test.go"@.is_suffix_of(name) || "_test.py"@.is_suffix_of(name)
        || "Test.java"@.is_suffix_of(name) || "Tests.cs"@.is_suffix_of(name)
        || ".spec.ts"@.is_suffix_of(name) || ".spec.js"@.is_suffix_of(name)
        || "_spec.rb"@.is_suffix_of(name)
}

/// True where a path with the given file name is a test file: it lies in a directory
/// of tests or its name follows a convention for tests.
pub open spec fn is_test_path(path: Seq<char>, name: Seq<char>) -> bool {
    in_test_directory(path) || is_test_name(name)
}

/// The directories whose files are never counted as sources.
pub open spec fn excluded_dirs() -> Seq<Seq<char>> {
    seq![
        "node_modules/"@,
        ".git/"@,
        "vendor/"@,
        "dist/"@,
        "build/"@,
        ".next/"@,
        "out/"@,
        "target/"@,
        "bin/"@,
        "obj/"@,
        "coverage/"@,
        ".vscode/"@,
        ".idea/"@,
        ".vs/"@,
        "public/"@,
        "assets/"@,
        "static/"@,
        "images/"@,
        "third_party/"@,
        "third-party/"@,
        "external/"@,
        "externals/"@,
        "packages/"@,
        "deps/"@,
        "dependencies/"@,
    ]
}

/// The extensions of source files.
pub open spec fn source_extensions() -> Seq<Seq<char>> {
    seq![
        "js"@,
        "ts"@,
        "tsx"@,
        "jsx"@,
        "py"@,
        "go"@,
        "java"@,
        "cs"@,
        "rs"@,
        "rb"@,
        "php"@,
        "c"@,
        "cpp"@,
        "h"@,
        "hpp"@,
        "swift"@,
    ]
}

/// True where a path mentions an excluded directory.
pub open spec fn in_excluded_dir(path: Seq<char>) -> bool {
    exists|i: int| 0 <= i < excluded_dirs().len() && contains_text(path, #[trigger] excluded_dirs()[i])
}

/// True where a path whose file name has the given extension is a source file: it has
/// an extension of a known language and mentions no excluded directory.
pub open spec fn is_source_path(path: Seq<char>, extension: Option<Seq<char>>) -> bool {
    match extension {
        Some(ext) => !in_excluded_dir(path) && source_extensions().contains(ext),
        None => false,
    }
}

/// The one name that a test file name gives by exchanging its suffix for an ending, where
/// it has that suffix.
pub open spec fn renamed(name: Seq<char>, suffix: Seq<char>, ending: Seq<char>) -> Seq<Seq<char>> {
    if suffix.is_suffix_of(name) {
        seq![name.take(name.len() - suffix.len()) + ending]
    } else {
        seq![]
    }
}

/// The name without the prefix `test_`, where it has that prefix.
pub open spec fn without_test_prefix(name: Seq<char>) -> Seq<Seq<char>> {
    if "test_"@.is_prefix_of(name) {
        seq![name.skip("test_"@.len() as int)]
    } else {
        seq![]
    }
}

/// For a Rust file, the name without the prefix `test_`, or the name itself where it
/// has no such prefix.
pub open spec fn rust_source_name(name: Seq<char>) -> Seq<Seq<char>> {
    if ".rs"@.is_suffix_of(name) {
        if "test_"@.is_prefix_of(name) {
            seq![name.skip("test_"@.len() as int)]
        } else {
            seq![name]
        }
    } else {
        seq![]
    }
}

/// The names that the source file of a test file may have, one for each naming
/// convention that the test file's name follows, in a fixed order.
pub open spec fn source_names(name: Seq<char>) -> Seq<Seq<char>> {
    without_test_prefix(name) + renamed(name, ".test.ts"@, ".ts"@) + renamed(
        name,
        ".test.js"@,
        ".js"@,
    ) + renamed(name, ".test.tsx"@, ".tsx"@) + renamed(name, ".test.jsx"@, ".jsx"@) + renamed(
        name,
        "_test.go"@,
        ".go"@,
    ) + renamed(name, "Test.java"@, ".java"@) + renamed(name, ".spec.ts"@, ".ts"@) + renamed(
        name,
        ".spec.js"@,
        ".js"@,
    ) + renamed(name, "_spec.rb"@, ".rb"@) + rust_source_name(name)
}

/// True for the directories named after tests.
pub open spec fn is_test_dir(dir: Seq<char>) -> bool {
    "/test"@.is_suffix_of(dir) || "/tests"@.is_suffix_of(dir) || "/spec"@.is_suffix_of(dir)
        || "/specs"@.is_suffix_of(dir)
}

/// True where a directory of tests runs parallel to a directory of sources: they are
/// equal once a test segment is taken out of the one and `src` out of the other.
pub open spec fn parallel_dirs(test_dir: Seq<char>, source_dir: Seq<char>) -> bool {
    let source = replaced(source_dir, "/src/"@, "/"@);
    replaced(test_dir, "/test/"@, "/"@) == source || replaced(test_dir, "/tests/"@, "/"@) == source
        || replaced(test_dir, "/spec/"@, "/"@) == source || replaced(test_dir, "/specs/"@, "/"@)
        == source
}

/// True where the directories of a test file and of a source file fit together.
pub open spec fn dirs_fit(test_dir: Seq<char>, above_test_dir: Seq<char>, source_dir: Seq<char>) -> bool {
    if is_test_dir(test_dir) {
        above_test_dir.is_prefix_of(source_dir)
    } else {
        parallel_dirs(test_dir, source_dir) || test_dir == source_dir
    }
}

/// True where a source file is the one that a test file tests: the source's name is
/// among those that the test's name gives, and their directories fit together.
pub open spec fn corresponds(test_path: Seq<char>, source_path: Seq<char>) -> bool {
    source_names(file_name_or_empty(test_path)).contains(file_name_or_empty(source_path))
        && dirs_fit(
        parent_or_empty(test_path),
        parent_or_empty(parent_or_empty(test_path)),
        parent_or_empty(source_path),
    )
}

/// The index of the first source file that corresponds to the test file, or the number
/// of source files where none does.
pub open spec fn first_corresponding(test_path: Seq<char>, sources: Seq<Seq<char>>) -> int
    decreases sources.len(),
{
    if sources.len() == 0 || corresponds(test_path, sources[0]) {
        0
    } else {
        1 + first_corresponding(test_path, sources.drop_first())
    }
}

/// Why no test file path can be derived for a source file.
#[derive(Debug, Clone, Copy, PartialEq, Eq, Structural)]
pub enum PathError {
    /// The path has no file name.
    InvalidName,
    /// The file name has no extension.
    NoExtension,
}

/// The name of the test file for a source file with the given stem and extension.
pub open spec fn test_file_name(stem: Seq<char>, ext: Seq<char>) -> Seq<char> {
    if ext == "ts"@ {
        stem + ".test.ts"@
    } else if ext == "js"@ {
        stem + ".test.js"@
    } else if ext == "tsx"@ {
        stem + ".test.tsx"@
    } else if ext == "jsx"@ {
        stem + ".test.jsx"@
    } else if ext == "py"@ {
        "test_"@ + stem + ".py"@
    } else if ext == "go"@ {
        stem + "_test.go"@
    } else if ext == "java"@ {
        stem + "Test.java"@
    } else if ext == "cs"@ {
        stem + "Tests.cs"@
    } else if ext == "rb"@ {
        stem + "_spec.rb"@
    } else if ext == "rs"@ {
        stem + "_test.rs"@
    } else {
        stem + ".test."@ + ext
    }
}

/// True for the extensions of JavaScript and TypeScript.
pub open spec fn is_script_extension(ext: Seq<char>) -> bool {
    ext == "ts"@ || ext == "js"@ || ext == "tsx"@ || ext == "jsx"@
}

/// The directory of the test file for a source file in the given directory.
pub open spec fn test_directory(parent: Seq<char>, ext: Seq<char>) -> Seq<char> {
    if ext == "rs"@ {
        if parent.len() == 0 {
            "tests"@
        } else {
            parent + "/tests"@
        }
    } else if is_script_extension(ext) {
        if parent.len() == 0 {
            "__tests__"@
        } else if contains_text(parent, "/__tests__"@) || contains_text(parent, "/tests"@)
            || contains_text(parent, "/test"@) {
            parent
        } else {
            parent + "/__tests__"@
        }
    } else {
        if parent.len() == 0 {
            "tests"@
        } else if "/tests"@.is_suffix_of(parent) || "/test"@.is_suffix_of(parent) {
            parent
        } else {
            parent + "/tests"@
        }
    }
}

/// The path of the test file for a source file, from the parts of the source's path.
pub open spec fn test_path_from_parts(
    name: Option<Seq<char>>,
    parent: Seq<char>,
) -> Result<Seq<char>, PathError> {
    match name {
        None => Err(PathError::InvalidName),
        Some(name) => match name_extension(name) {
            None => Err(PathError::NoExtension),
            Some(ext) => Ok(
                test_directory(parent, ext) + "/"@ + test_file_name(name_stem(name), ext),
            ),
        },
    }
}

/// The path of the test file for a source file.
pub open spec fn test_file_path(source_file: Seq<char>) -> Result<Seq<char>, PathError> {
    test_path_from_parts(path_file_name(source_file), parent_or_empty(source_file))
}

/// The characters of a derived path, or the error.
pub open spec fn path_result_view(r: Result<String, PathError>) -> Result<Seq<char>, PathError> {
    match r {
        Ok(path) => Ok(path@),
        Err(e) => Err(e),
    }
}

/// The views of a list of string slices.
pub open spec fn views(list: Seq<&'static str>) -> Seq<Seq<char>> {
    list.map_values(|s: &'static str| s@)
}

fn excluded_dir_list() -> (list: Vec<&'static str>)
    ensures
        views(list@) == excluded_dirs(),
{
    let list = vec![
        "node_modules/",
        ".git/",
        "vendor/",
        "dist/",
        "build/",
        ".next/",
        "out/",
        "target/",
        "bin/",
        "obj/",
        "coverage/",
        ".vscode/",
        ".idea/",
        ".vs/",
        "public/",
        "assets/",
        "static/",
        "images/",
        "third_party/",
        "third-party/",
        "external/",
        "externals/",
        "packages/",
        "deps/",
        "dependencies/",
    ];
    assert(views(list@) =~= excluded_dirs());
    list
}

fn source_extension_list() -> (list: Vec<&'static str>)
    ensures
        views(list@) == source_extensions(),
{
    let list = vec![
        "js",
        "ts",
        "tsx",
        "jsx",
        "py",
        "go",
        "java",
        "cs",
        "rs",
        "rb",
        "php",
        "c",
        "cpp",
        "h",
        "hpp",
        "swift",
    ];
    assert(views(list@) =~= source_extensions());
    list
}

/// Rules for telling test files from source files by their paths, and for finding the
/// one that belongs to the other.
#[derive(Debug, Clone, Copy, PartialEq, Eq)]
pub struct FileService;

impl FileService {
    /// Creates the service, which holds no state.
    pub fn new() -> (service: Self)
        ensures
            service == FileService,
    {
        FileService
    }

    /// A path as seen from the directory that is analysed.
    pub fn get_relative_path(&self, full_path: &str, base_path: &str) -> (relative: String)
        ensures
            relative@ == relative_to(full_path@, base_path@),
    {
        relative_path(full_path, base_path)
    }

    /// Decides whether a path with the given file name is a test file.
    pub fn is_test_path(&self, path: &str, name: &str) -> (yes: bool)
        ensures
            yes == is_test_path(path@, name@),
    {
        let path = chars_of(path);
        let name = chars_of(name);
        has_text(&path, "/test/") || has_text(&path, "/tests/") || has_text(&path, "/spec/")
            || has_text(&path, "/specs/") || has_prefix(&name, "test_") || has_suffix(
            &name,
            ".test.ts",
        ) || has_suffix(&name, ".test.js") || has_suffix(&name, ".test.tsx") || has_suffix(
            &name,
            ".test.jsx",
        ) || has_suffix(&name, "_test.go") || has_suffix(&name, "_test.py") || has_suffix(
            &name,
            "Test.java",
        ) || has_suffix(&name, "Tests.cs") || has_suffix(&name, ".spec.ts") || has_suffix(
            &name,
            ".spec.js",
        ) || has_suffix(&name, "_spec.rb")
    }

    /// Decides whether a path is a test file, by its directories and its file name.
    pub fn is_test_file(&self, path: &str) -> (yes: bool)
        ensures
            yes == is_test_path(path@, file_name_or_empty(path@)),
    {
        let name = file_name(path);
        self.is_test_path(path, name.as_str())
    }

    /// Decides whether a path whose file name has the given extension is a source file.
    pub fn is_source_path(&self, path: &str, extension: Option<&str>) -> (yes: bool)
        ensures
            yes == is_source_path(path@, slice_view(extension)),
    {
        let ext = match extension {
            Some(ext) => chars_of(ext),
            None => {
                return false;
            },
        };
        let chars = chars_of(path);
        let excluded = excluded_dir_list();
        let mut i: usize = 0;
        while i < excluded.len()
            invariant
                i <= excluded@.len(),
                chars@ == path@,
                views(excluded@) == excluded_dirs(),
                forall|j: int| 0 <= j < i ==> !contains_text(path@, #[trigger] excluded_dirs()[j]),
            decreases excluded@.len() - i,
        {
            assert(views(excluded@)[i as int] == excluded@[i as int]@);
            if has_text(&chars, excluded[i]) {
                assert(contains_text(path@, excluded_dirs()[i as int]));
                return false;
            }
            i += 1;
        }
        assert(!in_excluded_dir(path@));
        let known = source_extension_list();
        let mut k: usize = 0;
        while k < known.len()
            invariant
                k <= known@.len(),
                extension is Some,
                ext@ == extension.unwrap()@,
                !in_excluded_dir(path@),
                views(known@) == source_extensions(),
                forall|j: int| 0 <= j < k ==> source_extensions()[j] != ext@,
            decreases known@.len() - k,
        {
            assert(views(known@)[k as int] == known@[k as int]@);
            let candidate = chars_of(known[k]);
            if same_chars(&candidate, &ext) {
                assert(source_extensions()[k as int] == ext@);
                return true;
            }
            k += 1;
        }
        false
    }

    /// Decides whether a path is a source file that tests may be written for.
    pub fn is_source_file(&self, path: &str) -> (yes: bool)
        ensures
            yes == is_source_path(path@, name_extension(file_name_or_empty(path@))),
    {
        let name = file_name(path);
        let (_, extension) = split_name(name.as_str());
        match extension {
            Some(ext) => self.is_source_path(path, Some(ext.as_str())),
            None => false,
        }
    }

    /// Derives the names that the source file of a test file may have.
    pub fn derive_source_file_names(&self, test_file_name: &str) -> (names: Vec<String>)
        ensures
            texts(names@) == source_names(test_file_name@),
    {
        let chars = chars_of(test_file_name);
        let len = chars.len();
        let prefix_len = chars_of("test_").len();
        let mut names: Vec<String> = Vec::new();
        assert(texts(names@) =~= Seq::<Seq<char>>::empty());
        let prefixed = has_prefix(&chars, "test_");
        if prefixed {
            names.push(String::from_str(test_file_name.substring_char(prefix_len, len)));
        }
        assert(texts(names@) =~= without_test_prefix(test_file_name@));
        rename(test_file_name, &chars, ".test.ts", ".ts", &mut names);
        rename(test_file_name, &chars, ".test.js", ".js", &mut names);
        rename(test_file_name, &chars, ".test.tsx", ".tsx", &mut names);
        rename(test_file_name, &chars, ".test.jsx", ".jsx", &mut names);
        rename(test_file_name, &chars, "_test.go", ".go", &mut names);
        rename(test_file_name, &chars, "Test.java", ".java", &mut names);
        rename(test_file_name, &chars, ".spec.ts", ".ts", &mut names);
        rename(test_file_name, &chars, ".spec.js", ".js", &mut names);
        rename(test_file_name, &chars, "_spec.rb", ".rb", &mut names);
        let ghost before = texts(names@);
        if has_suffix(&chars, ".rs") {
            if prefixed {
                names.push(String::from_str(test_file_name.substring_char(prefix_len, len)));
            } else {
                names.push(String::from_str(test_file_name));
            }
        }
        assert(texts(names@) =~= before + rust_source_name(test_file_name@));
        names
    }

    /// Decides whether a test file and a source file belong together, from the parts
    /// of their paths: the names that the test's name gives, the source's file name, the
    /// test's directory, the directory above that, and the source's directory.
    pub fn parts_correspond(
        &self,
        names: &Vec<String>,
        source_name: &str,
        test_dir: &str,
        above_test_dir: &str,
        source_dir: &str,
    ) -> (yes: bool)
        ensures
            yes == (texts(names@).contains(source_name@) && dirs_fit(
                test_dir@,
                above_test_dir@,
                source_dir@,
            )),
    {
        let mut named = false;
        let mut i: usize = 0;
        while i < names.len()
            invariant
                i <= names@.len(),
                named == exists|j: int| 0 <= j < i && #[trigger] texts(names@)[j] == source_name@,
            decreases names@.len() - i,
        {
            assert(texts(names@)[i as int] == names@[i as int]@);
            if str_eq(names[i].as_str(), source_name) {
                named = true;
            }
            i += 1;
        }
        if !named {
            return false;
        }
        let test = chars_of(test_dir);
        let source = chars_of(source_dir);
        if has_suffix(&test, "/test") || has_suffix(&test, "/tests") || has_suffix(&test, "/spec")
            || has_suffix(&test, "/specs") {
            let above = chars_of(above_test_dir);
            starts_with(&source, &above)
        } else {
            proof {
                reveal_strlit("/src/");
                reveal_strlit("/test/");
                reveal_strlit("/tests/");
                reveal_strlit("/spec/");
                reveal_strlit("/specs/");
            }
            let slash = chars_of("/");
            let plain = replace_all(&source, &chars_of("/src/"), &slash);
            same_chars(&replace_all(&test, &chars_of("/test/"), &slash), &plain) || same_chars(
                &replace_all(&test, &chars_of("/tests/"), &slash),
                &plain,
            ) || same_chars(&replace_all(&test, &chars_of("/spec/"), &slash), &plain)
                || same_chars(&replace_all(&test, &chars_of("/specs/"), &slash), &plain)
                || same_chars(&test, &source)
        }
    }

    /// Finds the index of the first of the source files that the test file tests; the
    /// number of source files where there is none.
    pub fn position_of_source(&self, test_path: &str, source_files: &Vec<String>) -> (at: usize)
        ensures
            at == first_corresponding(test_path@, texts(source_files@)),
            at <= source_files@.len(),
    {
        let test_name = file_name(test_path);
        let names = self.derive_source_file_names(test_name.as_str());
        let test_dir = parent(test_path);
        let above_test_dir = parent(test_dir.as_str());
        let ghost sources = texts(source_files@);
        let mut i: usize = 0;
        assert(sources.skip(0) == sources);
        while i < source_files.len()
            invariant
                i <= source_files@.len(),
                sources == texts(source_files@),
                texts(names@) == source_names(file_name_or_empty(test_path@)),
                test_dir@ == parent_or_empty(test_path@),
                above_test_dir@ == parent_or_empty(test_dir@),
                first_corresponding(test_path@, sources) == i + first_corresponding(
                    test_path@,
                    sources.skip(i as int),
                ),
            decreases source_files@.len() - i,
        {
            let ghost rest = sources.skip(i as int);
            assert(rest[0] == source_files@[i as int]@);
            assert(rest.drop_first() == sources.skip(i + 1));
            let source_path = source_files[i].as_str();
            let source_name = file_name(source_path);
            let source_dir = parent(source_path);
            if self.parts_correspond(
                &names,
                source_name.as_str(),
                test_dir.as_str(),
                above_test_dir.as_str(),
                source_dir.as_str(),
            ) {
                return i;
            }
            i += 1;
        }
        i
    }

    /// Finds the first of the source files that the test file tests.
    pub fn find_corresponding_source_file(&self, test_path: &str, source_files: &Vec<String>) -> (found:
        Option<String>)
        ensures
            match found {
                Some(source) => {
                    let at = first_corresponding(test_path@, texts(source_files@));
                    at < source_files@.len() && source@ == source_files@[at]@
                },
                None => first_corresponding(test_path@, texts(source_files@))
                    == source_files@.len(),
            },
    {
        let at = self.position_of_source(test_path, source_files);
        if at < source_files.len() {
            Some(source_files[at].clone())
        } else {
            None
        }
    }

    /// Derives the path of the test file for a source file from the source's file
    /// name, if its path has one, and its directory.
    pub fn test_path_from_parts(&self, name: Option<&str>, parent: &str) -> (r: Result<
        String,
        PathError,
    >)
        ensures
            path_result_view(r) == test_path_from_parts(slice_view(name), parent@),
    {
        let name = match name {
            Some(name) => name,
            None => {
                return Err(PathError::InvalidName);
            },
        };
        let (stem, extension) = split_name(name);
        let ext = match extension {
            Some(ext) => ext,
            None => {
                return Err(PathError::NoExtension);
            },
        };
        let ext = ext.as_str();
        let stem = stem.as_str();
        let is_ts = str_eq(ext, "ts");
        let is_js = str_eq(ext, "js");
        let is_tsx = str_eq(ext, "tsx");
        let is_jsx = str_eq(ext, "jsx");
        let is_rs = str_eq(ext, "rs");
        let file = if is_ts {
            String::from_str(stem).concat(".test.ts")
        } else if is_js {
            String::from_str(stem).concat(".test.js")
        } else if is_tsx {
            String::from_str(stem).concat(".test.tsx")
        } else if is_jsx {
            String::from_str(stem).concat(".test.jsx")
        } else if str_eq(ext, "py") {
            String::from_str("test_").concat(stem).concat(".py")
        } else if str_eq(ext, "go") {
            String::from_str(stem).concat("_test.go")
        } else if str_eq(ext, "java") {
            String::from_str(stem).concat("Test.java")
        } else if str_eq(ext, "cs") {
            String::from_str(stem).concat("Tests.cs")
        } else if str_eq(ext, "rb") {
            String::from_str(stem).concat("_spec.rb")
        } else if is_rs {
            String::from_str(stem).concat("_test.rs")
        } else {
            String::from_str(stem).concat(".test.").concat(ext)
        };
        let dir_chars = chars_of(parent);
        let dir = if is_rs {
            if parent.is_empty() {
                String::from_str("tests")
            } else {
                String::from_str(parent).concat("/tests")
            }
        } else if is_ts || is_js || is_tsx || is_jsx {
            if parent.is_empty() {
                String::from_str("__tests__")
            } else if has_text(&dir_chars, "/__tests__") || has_text(&dir_chars, "/tests")
                || has_text(&dir_chars, "/test") {
                String::from_str(parent)
            } else {
                String::from_str(parent).concat("/__tests__")
            }
        } else {
            if parent.is_empty() {
                String::from_str("tests")
            } else if has_suffix(&dir_chars, "/tests") || has_suffix(&dir_chars, "/test") {
                String::from_str(parent)
            } else {
                String::from_str(parent).concat("/tests")
            }
        };
        Ok(dir.concat("/").concat(file.as_str()))
    }

    /// Derives the path of the test file for a source file.
    pub fn derive_test_file_path(&self, source_file: &str) -> (r: Result<String, PathError>)
        ensures
            path_result_view(r) == test_file_path(source_file@),
    {
        let name = file_name_of(source_file);
        let dir = parent(source_file);
        match &name {
            Some(name) => self.test_path_from_parts(Some(name.as_str()), dir.as_str()),
            None => self.test_path_from_parts(None, dir.as_str()),
        }
    }
}

/// Adds to `names` the name that `name` gives by exchanging `suffix` for `ending`, where
/// it has that suffix.
fn rename(name: &str, chars: &Vec<char>, suffix: &str, ending: &str, names: &mut Vec<String>)
    requires
        chars@ == name@,
    ensures
        texts(final(names)@) == texts(old(names)@) + renamed(name@, suffix@, ending@),
{
    let suffix_len = chars_of(suffix).len();
    if has_suffix(chars, suffix) {
        let kept = name.substring_char(0, chars.len() - suffix_len);
        names.push(String::from_str(kept).concat(ending));
    }
    assert(texts(names@) =~= texts(old(names)@) + renamed(name@, suffix@, ending@));
}

} // verus!
