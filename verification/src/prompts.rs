//! The instructions given to the language model that writes tests.

use crate::text::slice_view;
use vstd::prelude::*;

verus! {

/// The instructions to the model up to the place where the language is named.
pub const PROMPT_HEAD: &'static str =
    "You are a specialized test generation agent. Your task is to analyze the code provided and generate comprehensive test cases.\n\nFollow these guidelines:\n1. Create thorough test cases covering all functionality in the code\n2. Include tests for edge cases and error handling\n3. Ensure the tests are well-organized and commented\n4. Use ";

/// The instructions to the model after the language and the framework.
pub const PROMPT_TAIL: &'static str =
    "\n\nRespond ONLY with the generated test code, without explanations or commentary outside the code.";

/// What stands for the framework where none is named.
pub const BEST_PRACTICES: &'static str = " best practices for testing";

/// The clause that names the test framework, or the one that stands for it.
pub open spec fn framework_clause(test_framework: Option<Seq<char>>) -> Seq<char> {
    match test_framework {
        Some(framework) => " and the "@ + framework + " testing framework"@,
        None => BEST_PRACTICES@,
    }
}

/// The system prompt that asks for tests in a language, with a framework where one is
/// named.
pub open spec fn test_generation_prompt_spec(
    language: Seq<char>,
    test_framework: Option<Seq<char>>,
) -> Seq<char> {
    PROMPT_HEAD@ + language + framework_clause(test_framework) + PROMPT_TAIL@
}

/// Composes the system prompt that asks for tests in a language.
pub fn test_generation_prompt(language: &str, test_framework: Option<&str>) -> (prompt: String)
    ensures
        prompt@ == test_generation_prompt_spec(language@, slice_view(test_framework)),
{
    let clause = match test_framework {
        Some(framework) => String::from_str(" and the ").concat(framework).concat(
            " testing framework",
        ),
        None => String::from_str(BEST_PRACTICES),
    };
    String::from_str(PROMPT_HEAD).concat(language).concat(clause.as_str()).concat(PROMPT_TAIL)
}

} // verus!
