//! What the widgets of the solve menu show, taken from the state.

use crate::common::{statuses_view, InputField, StatusModel, TestCaseStatus};
use crate::display::{Styled, StyledModel};
use crate::model::Model;
use crate::test_runner::words_view;
use crate::text::push_char;
use vstd::prelude::*;
use vstd::std_specs::iter::IteratorSpec;
use vstd::string::*;

verus! {

/// The two commands as they are shown, and the one that is edited.
#[derive(Debug, PartialEq, Eq)]
pub struct CommandsView {
    pub compile_command: String,
    pub run_command: String,
    pub selected: Option<InputField>,
}

impl CommandsView {
    /// Takes the commands from the state.
    pub fn setup(model: &Model) -> (view: Self)
        ensures
            view.compile_command@ == model@.command_view(InputField::CompileCommand),
            view.run_command@ == model@.command_view(InputField::RunCommand),
            view.selected == model@.input.direction,
    {
        CommandsView {
            compile_command: model.compile_command_view(),
            run_command: model.run_command_view(),
            selected: model.input_handler.current_field(),
        }
    }
}

/// The selected test case with its status, and the number of test cases.
#[derive(Debug, PartialEq, Eq)]
pub struct TestCaseDetails {
    pub test_case: TestCaseStatus,
    pub id: usize,
    pub total: usize,
}

impl TestCaseDetails {
    /// Takes the selected test case from the state, after pulling the
    /// worker's updates.
    pub fn setup(model: &mut Model) -> (details: Self)
        requires
            old(model)@.suite.updates_in_range(),
            old(model)@.selected_test_case < old(model)@.suite.statuses.len(),
        ensures
            final(model)@ == old(model)@.pulled(),
            details.id == old(model)@.selected_test_case,
            details.test_case@ == final(model)@.suite.statuses[details.id as int],
            details.total == old(model)@.suite.test_cases.len(),
    {
        let (id, test_case) = model.details_for_selected_test_case();
        let total = model.number_of_tests();
        TestCaseDetails { id, test_case, total }
    }
}

/// One cell of the table of test cases: the number of a test case and the
/// wording of its status.
#[derive(Debug, PartialEq, Eq)]
pub struct TableCell {
    pub number: usize,
    pub status: Styled,
}

/// What a `TableCell` is.
pub ghost struct TableCellModel {
    pub number: usize,
    pub status: StyledModel,
}

impl View for TableCell {
    type V = TableCellModel;

    open spec fn view(&self) -> TableCellModel {
        TableCellModel { number: self.number, status: self.status@ }
    }
}

/// The views of the cells of a row, in order.
pub open spec fn row_view(row: Seq<TableCell>) -> Seq<TableCellModel> {
    Seq::new(row.len(), |i: int| row[i]@)
}

/// The number of test cases below `n` that stand in the row `row` of three.
pub open spec fn row_len(n: int, row: int) -> int {
    if n <= row {
        0
    } else {
        (n - row + 2) / 3
    }
}

/// The row `row` of the table: every third test case, from the one with the
/// number `row` on.
pub open spec fn table_row(statuses: Seq<StatusModel>, row: int) -> Seq<TableCellModel> {
    Seq::new(
        row_len(statuses.len() as int, row) as nat,
        |k: int|
            TableCellModel { number: (3 * k + row) as usize, status: statuses[3 * k + row].span() },
    )
}

/// The statuses of all test cases.
#[derive(Debug, PartialEq, Eq)]
pub struct TestCaseTable {
    pub test_cases: Vec<TestCaseStatus>,
}

/// The three rows of the table of test cases.
#[derive(Debug, PartialEq, Eq)]
pub struct TableRows {
    pub first: Vec<TableCell>,
    pub second: Vec<TableCell>,
    pub third: Vec<TableCell>,
}

impl TestCaseTable {
    /// Takes the statuses from the state, after pulling the worker's updates.
    pub fn setup(model: &mut Model) -> (table: Self)
        requires
            old(model)@.suite.updates_in_range(),
        ensures
            final(model)@ == old(model)@.pulled(),
            statuses_view(table.test_cases@) == final(model)@.suite.statuses,
    {
        TestCaseTable { test_cases: model.get_test_cases() }
    }

    /// Deals the test cases out over three rows, in turn.
    pub fn rows(self) -> (rows: TableRows)
        ensures
            row_view(rows.first@) == table_row(statuses_view(self.test_cases@), 0),
            row_view(rows.second@) == table_row(statuses_view(self.test_cases@), 1),
            row_view(rows.third@) == table_row(statuses_view(self.test_cases@), 2),
    {
        let ghost statuses = statuses_view(self.test_cases@);
        let mut first: Vec<TableCell> = Vec::new();
        let mut second: Vec<TableCell> = Vec::new();
        let mut third: Vec<TableCell> = Vec::new();
        let mut i: usize = 0;
        while i < self.test_cases.len()
            invariant
                i <= self.test_cases.len(),
                statuses == statuses_view(self.test_cases@),
                first.len() == row_len(i as int, 0),
                second.len() == row_len(i as int, 1),
                third.len() == row_len(i as int, 2),
                forall|k: int| 0 <= k < first.len() ==> (#[trigger] first[k])@ == table_row(statuses, 0)[k],
                forall|k: int| 0 <= k < second.len() ==> (#[trigger] second[k])@ == table_row(statuses, 1)[k],
                forall|k: int| 0 <= k < third.len() ==> (#[trigger] third[k])@ == table_row(statuses, 2)[k],
            decreases self.test_cases.len() - i,
        {
            let cell = TableCell { number: i, status: self.test_cases[i].clone().into_span() };
            assert(cell@.status == statuses[i as int].span());
            if i % 3 == 0 {
                first.push(cell);
            } else if i % 3 == 1 {
                second.push(cell);
            } else {
                third.push(cell);
            }
            i += 1;
        }
        assert(row_view(first@) =~= table_row(statuses, 0));
        assert(row_view(second@) =~= table_row(statuses, 1));
        assert(row_view(third@) =~= table_row(statuses, 2));
        TableRows { first, second, third }
    }
}

/// The lines of a statement as they are shown: the text is cut at each
/// line feed, and each tab becomes four spaces. A text without a line feed
/// is one line, and a text that ends in a line feed ends in an empty line.
pub open spec fn statement_lines(text: Seq<char>) -> Seq<Seq<char>>
    decreases text.len(),
{
    if text.len() == 0 {
        seq![Seq::empty()]
    } else {
        let lines = statement_lines(text.drop_last());
        let last = lines.len() - 1;
        if text.last() == '\n' {
            lines.push(Seq::empty())
        } else if text.last() == '\t' {
            lines.update(last, lines[last] + seq![' ', ' ', ' ', ' '])
        } else {
            lines.update(last, lines[last].push(text.last()))
        }
    }
}

/// Cuts a statement into the lines that are shown: see `statement_lines`.
pub fn split_statement(statement: &str) -> (lines: Vec<String>)
    ensures
        words_view(lines@) == statement_lines(statement@),
{
    broadcast use vstd::string::axiom_spec_iter, vstd::string::next_postcondition;

    let mut chars = statement.chars();
    let mut lines: Vec<String> = Vec::new();
    let mut current = String::new();
    let ghost mut seen: Seq<char> = Seq::empty();
    proof {
        assert(seen + chars.remaining() =~= statement@);
        assert(words_view(lines@).push(current@) =~= statement_lines(seen));
    }
    loop
        invariant
            seen + chars.remaining() == statement@,
            words_view(lines@).push(current@) == statement_lines(seen),
            chars.obeys_prophetic_iter_laws(),
            chars.decrease() is Some,
        ensures
            seen == statement@,
            words_view(lines@).push(current@) == statement_lines(seen),
        decreases chars.decrease()->0,
    {
        let ghost before = chars.remaining();
        let ghost shown = words_view(lines@);
        let ghost line = current@;
        match chars.next() {
            Some(c) => {
                proof {
                    assert(seen.push(c).drop_last() =~= seen);
                    assert(seen.push(c) + chars.remaining() =~= seen + before);
                    seen = seen.push(c);
                    assert(shown.push(line).len() - 1 == shown.len());
                }
                if c == '\n' {
                    lines.push(current);
                    current = String::new();
                    assert(words_view(lines@) =~= shown.push(line));
                } else if c == '\t' {
                    current.append("    ");
                    proof {
                        reveal_strlit("    ");
                        assert("    "@ =~= seq![' ', ' ', ' ', ' ']);
                        assert(shown.push(current@) =~= shown.push(line).update(
                            shown.len() as int,
                            line + seq![' ', ' ', ' ', ' '],
                        ));
                    }
                } else {
                    push_char(&mut current, c);
                    assert(shown.push(current@) =~= shown.push(line).update(
                        shown.len() as int,
                        line.push(c),
                    ));
                }
            },
            None => {
                assert(seen + before =~= seen);
                break ;
            },
        }
    }
    let ghost shown = words_view(lines@);
    lines.push(current);
    assert(words_view(lines@) =~= shown.push(current@));
    lines
}

/// The selected problem as it is shown: its name, the lines of its
/// statement, and its first test case as an example.
#[derive(Debug, PartialEq, Eq)]
pub struct ProblemView {
    pub title: String,
    pub statement: Vec<String>,
    pub example_input: String,
    pub example_output: String,
}

impl ProblemView {
    /// Takes the selected problem from the state. It must have a test case.
    pub fn setup(model: &Model) -> (view: Self)
        requires
            model@.selected_problem < model@.problems.len(),
            model@.problems[model@.selected_problem as int].test_cases.len() > 0,
        ensures
            view.title@ == model@.problems[model@.selected_problem as int].name,
            words_view(view.statement@) == statement_lines(
                model@.problems[model@.selected_problem as int].statement,
            ),
            view.example_input@ == model@.problems[model@.selected_problem as int].test_cases[0].input,
            view.example_output@
                == model@.problems[model@.selected_problem as int].test_cases[0].output,
    {
        let problem = model.current_problem();
        assert(problem@.test_cases[0] == problem.test_cases[0]@);
        let fst_example = &problem.test_cases[0];
        ProblemView {
            title: problem.name.clone(),
            statement: split_statement(problem.statement.as_str()),
            example_input: fst_example.input.clone(),
            example_output: fst_example.output.clone(),
        }
    }
}

} // verus!
