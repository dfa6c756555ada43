use vibede_core::analysis::holds;
use vibede_core::analysis::included;
use vibede_core::analysis::FileAnalysisResult;
use vibede_core::files::FileService;

fn list(items: &[&str]) -> Vec<String> {
    items.iter().map(|s| s.to_string()).collect()
}

fn pair(source: &str, test: Option<&str>) -> (String, Option<String>) {
    (source.to_string(), test.map(|t| t.to_string()))
}

#[test]
fn holds_finds_strings() {
    assert!(holds(&list(&["a", "b"]), "b"));
    assert!(!holds(&list(&["a", "b"]), "c"));
    assert!(!holds(&list(&[]), ""));
    assert!(holds(&list(&[""]), ""));
}

#[test]
fn included_by_prefix() {
    assert!(included("src/a.rs", &None));
    assert!(included("src/a.rs", &Some(list(&["lib", "src"]))));
    assert!(included("src/a.rs", &Some(list(&["sr"]))));
    assert!(included("src/a.rs", &Some(list(&[""]))));
    assert!(!included("src/a.rs", &Some(list(&["lib"]))));
    assert!(!included("src/a.rs", &Some(list(&[]))));
    assert!(!included("src/a.rs", &Some(list(&["src/a.rs/x"]))));
}

#[test]
fn classify_sorts_tests_and_sources() {
    let service = FileService::new();
    let paths = list(&[
        "src/a.ts",
        "src/a.test.ts",
        "README.md",
        "src/b.py",
        "src/tests/test_b.py",
        "node_modules/x/index.js",
        "src/a.ts",
    ]);
    let (tests, sources) = service.classify(&paths, &None);
    assert_eq!(tests, list(&["src/a.test.ts", "src/tests/test_b.py"]));
    assert_eq!(sources, list(&["src/a.ts", "src/b.py"]));
}

#[test]
fn classify_keeps_repeated_tests() {
    let service = FileService::new();
    let paths = list(&["a.test.ts", "a.test.ts"]);
    let (tests, sources) = service.classify(&paths, &None);
    assert_eq!(tests, list(&["a.test.ts", "a.test.ts"]));
    assert_eq!(sources, list(&[]));
}

#[test]
fn classify_within_included_directories() {
    let service = FileService::new();
    let paths = list(&["src/a.ts", "src/a.test.ts", "lib/b.ts", "lib/b.test.ts"]);
    let (tests, sources) = service.classify(&paths, &Some(list(&["lib"])));
    assert_eq!(tests, list(&["lib/b.test.ts"]));
    assert_eq!(sources, list(&["lib/b.ts"]));
    let (tests, sources) = service.classify(&paths, &Some(list(&[])));
    assert_eq!(tests, list(&[]));
    assert_eq!(sources, list(&[]));
}

#[test]
fn assign_tests_takes_the_last_test_of_a_source() {
    let service = FileService::new();
    let sources = list(&["src/a.ts", "src/b.ts"]);
    let tests = list(&["src/a.test.ts", "src/c.test.ts", "src/a.spec.ts"]);
    assert_eq!(
        service.assign_tests(&tests, &sources),
        vec![Some("src/a.spec.ts".to_string()), None]
    );
    assert_eq!(service.assign_tests(&list(&[]), &sources), vec![None, None]);
    assert_eq!(service.assign_tests(&tests, &list(&[])), Vec::<Option<String>>::new());
}

#[test]
fn analyze_pairs_and_counts() {
    let service = FileService::new();
    let paths = list(&[
        "src/a.ts",
        "src/a.test.ts",
        "src/b.py",
        "src/c.go",
        "src/c_test.go",
        "docs/readme.md",
        "dist/out.js",
    ]);
    let result = service.find_test_files(&paths, &None);
    assert_eq!(
        result,
        FileAnalysisResult {
            source_files: vec![
                pair("src/a.ts", Some("src/a.test.ts")),
                pair("src/b.py", None),
                pair("src/c.go", Some("src/c_test.go")),
            ],
            file_count: 3,
            test_count: 2,
        }
    );
}

#[test]
fn analyze_of_nothing() {
    let service = FileService::new();
    let result = service.find_test_files(&list(&[]), &None);
    assert_eq!(
        result,
        FileAnalysisResult { source_files: Vec::new(), file_count: 0, test_count: 0 }
    );
    let result = service.find_test_files(&list(&["a.test.ts", "b.md"]), &None);
    assert_eq!(result.file_count, 0);
    assert_eq!(result.test_count, 0);
}

#[test]
fn analyze_with_test_before_source() {
    let service = FileService::new();
    let paths = list(&["pkg/tests/test_util.py", "pkg/util.py"]);
    let result = service.find_test_files(&paths, &None);
    assert_eq!(result.source_files, vec![pair("pkg/util.py", Some("pkg/tests/test_util.py"))]);
    assert_eq!(result.file_count, 1);
    assert_eq!(result.test_count, 1);
}

#[test]
fn analyze_limited_to_directories() {
    let service = FileService::new();
    let paths = list(&["src/a.ts", "src/a.test.ts", "lib/b.ts"]);
    let result = service.find_test_files(&paths, &Some(list(&["lib/"])));
    assert_eq!(result.source_files, vec![pair("lib/b.ts", None)]);
    assert_eq!(result.file_count, 1);
    assert_eq!(result.test_count, 0);
}
