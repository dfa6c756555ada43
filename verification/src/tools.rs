//! The tools that run the tests of a language.

use crate::text::str_eq;
use vstd::prelude::*;

verus! {

/// The tool whose presence shows that tests of a language can be run.
#[derive(Debug, Clone, Copy, PartialEq, Eq, Structural)]
pub enum TestRunner {
    Jest,
    Pytest,
    Cargo,
}

/// The name of the lower-case form of a string, as `str::to_lowercase` gives it.
pub uninterp spec fn lowercased(text: Seq<char>) -> Seq<char>;

/// Calls `str::to_lowercase`. Trusted: the result depends on the string alone.
#[verifier::external_body]
pub(crate) fn lowercase(text: &str) -> (lower: String)
    ensures
        lower@ == lowercased(text@),
{
    text.to_lowercase()
}

/// The runner for a language whose name is given in lower case; `None` for the
/// languages of which nothing is known.
pub open spec fn runner_named_spec(language: Seq<char>) -> Option<TestRunner> {
    if language == "javascript"@ || language == "typescript"@ {
        Some(TestRunner::Jest)
    } else if language == "python"@ {
        Some(TestRunner::Pytest)
    } else if language == "rust"@ {
        Some(TestRunner::Cargo)
    } else {
        None
    }
}

/// The runner for a language whose name is given in lower case.
pub fn runner_named(language: &str) -> (runner: Option<TestRunner>)
    ensures
        runner == runner_named_spec(language@),
{
    if str_eq(language, "javascript") || str_eq(language, "typescript") {
        Some(TestRunner::Jest)
    } else if str_eq(language, "python") {
        Some(TestRunner::Pytest)
    } else if str_eq(language, "rust") {
        Some(TestRunner::Cargo)
    } else {
        None
    }
}

/// The runner for a language, whatever the case of its name.
pub fn runner_for(language: &str) -> (runner: Option<TestRunner>)
    ensures
        runner == runner_named_spec(lowercased(language@)),
{
    let lower = lowercase(language);
    runner_named(lower.as_str())
}

impl TestRunner {
    /// The program to start.
    pub open spec fn program_spec(self) -> Seq<char> {
        match self {
            TestRunner::Jest => "npx"@,
            TestRunner::Pytest => "python"@,
            TestRunner::Cargo => "cargo"@,
        }
    }

    /// The arguments that make the program print its version.
    pub open spec fn arguments_spec(self) -> Seq<Seq<char>> {
        match self {
            TestRunner::Jest => seq!["jest"@, "--version"@],
            TestRunner::Pytest => seq!["-m"@, "pytest"@, "--version"@],
            TestRunner::Cargo => seq!["--version"@],
        }
    }

    /// The program to start.
    pub fn program(&self) -> (name: &'static str)
        ensures
            name@ == self.program_spec(),
    {
        match self {
            TestRunner::Jest => "npx",
            TestRunner::Pytest => "python",
            TestRunner::Cargo => "cargo",
        }
    }

    /// The arguments that make the program print its version.
    pub fn arguments(&self) -> (arguments: Vec<&'static str>)
        ensures
            arguments@.map_values(|s: &'static str| s@) == self.arguments_spec(),
    {
        let arguments = match self {
            TestRunner::Jest => vec!["jest", "--version"],
            TestRunner::Pytest => vec!["-m", "pytest", "--version"],
            TestRunner::Cargo => vec!["--version"],
        };
        assert(arguments@.map_values(|s: &'static str| s@) =~= self.arguments_spec());
        arguments
    }
}

/// Whether the packages that tests of a language need count as installed: where
/// nothing is known of the language, they do; otherwise they do exactly if the runner
/// could be started and ended with success.
pub fn packages_installed(runner: Option<TestRunner>, succeeded: Option<bool>) -> (installed: bool)
    ensures
        installed == match runner {
            None => true,
            Some(_) => succeeded == Some(true),
        },
{
    match runner {
        None => true,
        Some(_) => match succeeded {
            Some(success) => success,
            None => false,
        },
    }
}

} // verus!
