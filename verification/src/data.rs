//! Stress tests: generated test cases with large inputs, appended after the
//! declared cases of the problems that have them.

use crate::common::{cases_view, TestCase, TestCaseModel};
use vstd::prelude::*;
use vstd::string::*;

verus! {

/// A text written `n` times in a row.
pub open spec fn repeated(unit: Seq<char>, n: nat) -> Seq<char>
    decreases n,
{
    if n == 0 {
        Seq::empty()
    } else {
        repeated(unit, (n - 1) as nat) + unit
    }
}

/// Writes a text `n` times in a row.
pub fn repeat(unit: &str, n: usize) -> (text: String)
    ensures
        text@ == repeated(unit@, n as nat),
{
    let mut text = String::new();
    let mut i: usize = 0;
    while i < n
        invariant
            i <= n,
            text@ == repeated(unit@, i as nat),
        decreases n - i,
    {
        text.append(unit);
        i += 1;
    }
    text
}

/// The name of the problem whose stress tests print a greeting.
pub open spec fn hello_world_name() -> Seq<char> {
    "Print \"Hello, world!\" (tutorial)"@
}

/// The name of the problem whose stress tests look for a common substring.
pub open spec fn lcs_name() -> Seq<char> {
    "Longest common substring"@
}

/// A stress test: the generated case with the id `id`.
pub open spec fn stress_case(id: int, complexity: u32, input: Seq<char>, output: Seq<char>) -> TestCaseModel {
    TestCaseModel { id: id as usize, complexity, input, output, is_stress_test: true }
}

/// The input of a stress test for the common substring: two long words.
pub open spec fn lcs_input(n: nat) -> Seq<char> {
    repeated("abcde"@, n) + " "@ + repeated("abcdez"@, n)
}

/// The three stress tests for the common substring, the first with the id
/// `first_id`.
pub open spec fn lcs_stress_tests_from(first_id: usize) -> Seq<TestCaseModel> {
    seq![
        stress_case(first_id + 0, 600, lcs_input(100), "abcde"@),
        stress_case(first_id + 1, 6000, lcs_input(1000), repeated("abcde"@, 230)),
        stress_case(first_id + 2, 60000, lcs_input(10000), "abcde"@),
    ]
}

/// The three stress tests for the greeting, the first with the id `first_id`.
pub open spec fn hello_world_stress_tests_from(first_id: usize) -> Seq<TestCaseModel> {
    seq![
        stress_case(first_id + 0, 100, repeated("a"@, 100), "Hello, world!"@),
        stress_case(first_id + 1, 1000, repeated("a"@, 1000), "Hello, world!"@),
        stress_case(first_id + 2, 10000, repeated("a"@, 10000), "Hello, world!"@),
    ]
}

/// The three stress tests for the common substring, with the ids after
/// `last_id`.
pub open spec fn lcs_stress_tests(last_id: usize) -> Seq<TestCaseModel> {
    lcs_stress_tests_from((last_id + 1) as usize)
}

/// The three stress tests for the greeting, with the ids after `last_id`.
pub open spec fn hello_world_stress_tests(last_id: usize) -> Seq<TestCaseModel> {
    hello_world_stress_tests_from((last_id + 1) as usize)
}

/// Whether stress tests are generated for the problem of this name.
pub open spec fn has_stress_tests(problem_name: Seq<char>) -> bool {
    problem_name == hello_world_name() || problem_name == lcs_name()
}

/// The stress tests of a problem, by its name, the first with the id
/// `first_id`: none for a problem that has no generator.
pub open spec fn stress_tests_from(problem_name: Seq<char>, first_id: usize) -> Seq<
    TestCaseModel,
> {
    if problem_name == hello_world_name() {
        hello_world_stress_tests_from(first_id)
    } else if problem_name == lcs_name() {
        lcs_stress_tests_from(first_id)
    } else {
        Seq::empty()
    }
}

/// The stress tests of a problem, by its name, with the ids after `last_id`,
/// the id that was assigned last.
pub open spec fn stress_tests(problem_name: Seq<char>, last_id: usize) -> Seq<TestCaseModel> {
    stress_tests_from(problem_name, (last_id + 1) as usize)
}

fn lcs_case(id: usize, n: usize, complexity: u32, output: String) -> (case: TestCase)
    ensures
        case@ == stress_case(id as int, complexity, lcs_input(n as nat), output@),
{
    let input = repeat("abcde", n).concat(" ").concat(repeat("abcdez", n).as_str());
    TestCase { id, complexity, input, output, is_stress_test: true }
}

fn lcs_tests_from(first_id: usize) -> (cases: Vec<TestCase>)
    requires
        first_id <= usize::MAX - 2,
    ensures
        cases_view(cases@) == lcs_stress_tests_from(first_id),
{
    let cases = vec![
        lcs_case(first_id, 100, 600, "abcde".to_string()),
        lcs_case(first_id + 1, 1000, 6000, repeat("abcde", 230)),
        lcs_case(first_id + 2, 10000, 60000, "abcde".to_string()),
    ];
    assert(cases_view(cases@) =~= lcs_stress_tests_from(first_id));
    cases
}

/// The stress tests for the common substring, with ids after `last_id`.
pub fn stress_tests_for_lcs(last_id: usize) -> (cases: Vec<TestCase>)
    requires
        last_id <= usize::MAX - 3,
    ensures
        cases_view(cases@) == lcs_stress_tests(last_id),
{
    lcs_tests_from(last_id + 1)
}

fn hello_world_case(id: usize, n: usize, complexity: u32) -> (case: TestCase)
    ensures
        case@ == stress_case(id as int, complexity, repeated("a"@, n as nat), "Hello, world!"@),
{
    TestCase {
        id,
        complexity,
        input: repeat("a", n),
        output: "Hello, world!".to_string(),
        is_stress_test: true,
    }
}

fn hello_world_tests_from(first_id: usize) -> (cases: Vec<TestCase>)
    requires
        first_id <= usize::MAX - 2,
    ensures
        cases_view(cases@) == hello_world_stress_tests_from(first_id),
{
    let cases = vec![
        hello_world_case(first_id, 100, 100),
        hello_world_case(first_id + 1, 1000, 1000),
        hello_world_case(first_id + 2, 10000, 10000),
    ];
    assert(cases_view(cases@) =~= hello_world_stress_tests_from(first_id));
    cases
}

/// The stress tests for the greeting, with ids after `last_id`.
pub fn stress_tests_for_hello_world(last_id: usize) -> (cases: Vec<TestCase>)
    requires
        last_id <= usize::MAX - 3,
    ensures
        cases_view(cases@) == hello_world_stress_tests(last_id),
{
    hello_world_tests_from(last_id + 1)
}

/// Whether stress tests are generated for the problem of this name.
pub fn has_stress_tests_for(problem_name: &String) -> (has: bool)
    ensures
        has == has_stress_tests(problem_name@),
{
    *problem_name == "Print \"Hello, world!\" (tutorial)".to_string() || *problem_name
        == "Longest common substring".to_string()
}

/// The stress tests to append to a problem, the first with the id
/// `first_id`. Where there are any, `first_id` and two more ids must fit.
pub fn generate_stress_tests_from(problem_name: &String, first_id: usize) -> (cases: Vec<
    TestCase,
>)
    requires
        has_stress_tests(problem_name@) ==> first_id <= usize::MAX - 2,
    ensures
        cases_view(cases@) == stress_tests_from(problem_name@, first_id),
{
    if *problem_name == "Print \"Hello, world!\" (tutorial)".to_string() {
        hello_world_tests_from(first_id)
    } else if *problem_name == "Longest common substring".to_string() {
        lcs_tests_from(first_id)
    } else {
        let cases: Vec<TestCase> = Vec::new();
        assert(cases_view(cases@) =~= Seq::<TestCaseModel>::empty());
        cases
    }
}

/// The stress tests to append to a problem whose id assigned last is
/// `last_id`. Where there are any, three more ids must fit after `last_id`.
pub fn generate_stress_tests_for(problem_name: &String, last_id: usize) -> (cases: Vec<TestCase>)
    requires
        has_stress_tests(problem_name@) ==> last_id <= usize::MAX - 3,
    ensures
        cases_view(cases@) == stress_tests(problem_name@, last_id),
{
    if has_stress_tests_for(problem_name) {
        generate_stress_tests_from(problem_name, last_id + 1)
    } else {
        let cases: Vec<TestCase> = Vec::new();
        assert(cases_view(cases@) =~= Seq::<TestCaseModel>::empty());
        cases
    }
}

/// Generated cases are flagged as stress tests, and their ids follow one
/// another without a gap: the first has the id `first_id`, and each other
/// one the id after that of the case before it.
pub proof fn lemma_stress_ids_from(problem_name: Seq<char>, first_id: usize)
    requires
        has_stress_tests(problem_name) ==> first_id <= usize::MAX - 2,
    ensures
        forall|i: int|
            0 <= i < stress_tests_from(problem_name, first_id).len() ==> {
                &&& (#[trigger] stress_tests_from(problem_name, first_id)[i]).is_stress_test
                &&& stress_tests_from(problem_name, first_id)[i].id == first_id + i
            },
{
}

/// Generated cases are flagged as stress tests, and their ids follow
/// `last_id` without a gap: the first has the id `last_id + 1`, and each
/// other one the id after that of the case before it.
pub proof fn lemma_stress_ids(problem_name: Seq<char>, last_id: usize)
    requires
        has_stress_tests(problem_name) ==> last_id <= usize::MAX - 3,
    ensures
        forall|i: int|
            0 <= i < stress_tests(problem_name, last_id).len() ==> {
                &&& (#[trigger] stress_tests(problem_name, last_id)[i]).is_stress_test
                &&& stress_tests(problem_name, last_id)[i].id == last_id + 1 + i
            },
{
}

} // verus!
