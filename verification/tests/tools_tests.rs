use vibede_core::prompts::test_generation_prompt;
use vibede_core::tools::packages_installed;
use vibede_core::tools::runner_for;
use vibede_core::tools::runner_named;
use vibede_core::tools::TestRunner;

#[test]
fn runners_of_languages() {
    assert_eq!(runner_for("javascript"), Some(TestRunner::Jest));
    assert_eq!(runner_for("TypeScript"), Some(TestRunner::Jest));
    assert_eq!(runner_for("PYTHON"), Some(TestRunner::Pytest));
    assert_eq!(runner_for("Rust"), Some(TestRunner::Cargo));
    assert_eq!(runner_for("go"), None);
    assert_eq!(runner_for(""), None);
    assert_eq!(runner_for(" rust"), None);
}

#[test]
fn runners_of_lower_case_names() {
    assert_eq!(runner_named("rust"), Some(TestRunner::Cargo));
    assert_eq!(runner_named("Rust"), None);
    assert_eq!(runner_named("python"), Some(TestRunner::Pytest));
    assert_eq!(runner_named("javascript"), Some(TestRunner::Jest));
    assert_eq!(runner_named("typescript"), Some(TestRunner::Jest));
}

#[test]
fn programs_and_arguments() {
    assert_eq!(TestRunner::Jest.program(), "npx");
    assert_eq!(TestRunner::Jest.arguments(), vec!["jest", "--version"]);
    assert_eq!(TestRunner::Pytest.program(), "python");
    assert_eq!(TestRunner::Pytest.arguments(), vec!["-m", "pytest", "--version"]);
    assert_eq!(TestRunner::Cargo.program(), "cargo");
    assert_eq!(TestRunner::Cargo.arguments(), vec!["--version"]);
}

#[test]
fn packages_count_as_installed() {
    assert!(packages_installed(None, None));
    assert!(packages_installed(None, Some(false)));
    assert!(packages_installed(Some(TestRunner::Jest), Some(true)));
    assert!(!packages_installed(Some(TestRunner::Jest), Some(false)));
    assert!(!packages_installed(Some(TestRunner::Cargo), None));
}

#[test]
fn prompt_with_framework() {
    assert_eq!(
        test_generation_prompt("Python", Some("pytest")),
        "You are a specialized test generation agent. Your task is to analyze the code \
         provided and generate comprehensive test cases.\n\nFollow these guidelines:\n\
         1. Create thorough test cases covering all functionality in the code\n\
         2. Include tests for edge cases and error handling\n\
         3. Ensure the tests are well-organized and commented\n\
         4. Use Python and the pytest testing framework\n\n\
         Respond ONLY with the generated test code, without explanations or commentary \
         outside the code."
    );
}

#[test]
fn prompt_without_framework() {
    let prompt = test_generation_prompt("Rust", None);
    assert!(prompt.contains("\n4. Use Rust best practices for testing\n\nRespond ONLY"));
    assert!(prompt.starts_with("You are a specialized test generation agent."));
    assert!(prompt.ends_with("outside the code."));
}
