//! The state of the program: the problems, the selected one with its suite,
//! the settings, and the line that is being edited.

use crate::common::{
    problems_view, statuses_view, Direction, InputField, Menu, Problem, ProblemDataTab,
    ProblemModel, RequestModel, RunDetailsModel, RunRequest, TestCaseStatus,
};
use crate::input_handler::{InputHandler, InputModel};
use crate::settings::{Settings, SettingsModel};
use crate::test_suite::{
    all_not_run, leaves_room, loaded_cases, room_for_stress_tests, SuiteModel, TestSuite,
};
use vstd::prelude::*;
use vstd::string::*;

verus! {

/// The index after a move through a list of `count` entries: one further,
/// but not past the last entry, or one back, but not before the first.
pub open spec fn moved(index: usize, count: nat, dir: Direction) -> usize {
    match dir {
        Direction::Next => if index + 1 < count {
            (index + 1) as usize
        } else {
            (count - 1) as usize
        },
        Direction::Previous => if index > 0 {
            (index - 1) as usize
        } else {
            0
        },
    }
}

/// Moves an index through a list of `count` entries.
pub fn move_index(index: usize, count: usize, dir: Direction) -> (next: usize)
    requires
        dir == Direction::Next ==> count > 0,
    ensures
        next == moved(index, count as nat, dir),
{
    match dir {
        Direction::Next => if index < count - 1 {
            index + 1
        } else {
            count - 1
        },
        Direction::Previous => if index > 0 {
            index - 1
        } else {
            0
        },
    }
}

/// The state of the program.
#[derive(Debug)]
pub struct Model {
    pub problem_data_tab: ProblemDataTab,
    pub input_handler: InputHandler,
    pub settings: Settings,
    pub current_menu: Menu,
    pub selected_test_case: usize,
    pub db: Vec<Problem>,
    pub test_suite: TestSuite,
    pub selected_problem: usize,
}

/// What a `Model` is.
pub ghost struct ModelView {
    pub problem_data_tab: ProblemDataTab,
    pub input: InputModel,
    pub settings: SettingsModel,
    pub current_menu: Menu,
    pub selected_test_case: usize,
    pub problems: Seq<ProblemModel>,
    pub suite: SuiteModel,
    pub selected_problem: usize,
}

impl ModelView {
    /// A problem is selected, the ids of every problem leave room for its
    /// stress tests, and the suite has one status for each case.
    pub open spec fn wf(self) -> bool {
        &&& self.selected_problem < self.problems.len()
        &&& forall|i: int| 0 <= i < self.problems.len() ==> leaves_room(#[trigger] self.problems[i])
        &&& self.suite.wf()
    }

    /// The command that a field stands for.
    pub open spec fn field(self, field: InputField) -> Seq<char> {
        match field {
            InputField::CompileCommand => self.settings.compilation_step,
            InputField::RunCommand => self.settings.run_step,
        }
    }

    /// The state after selecting the next or the previous test case.
    pub open spec fn test_case_selected(self, dir: Direction) -> ModelView {
        ModelView {
            selected_test_case: moved(self.selected_test_case, self.suite.test_cases.len(), dir),
            ..self
        }
    }

    /// The state after selecting the next or the previous problem.
    pub open spec fn problem_selected(self, dir: Direction) -> ModelView {
        ModelView {
            selected_problem: moved(self.selected_problem, self.problems.len(), dir),
            ..self
        }
    }

    /// The state once `field` is being edited, starting from its value.
    pub open spec fn editing(self, field: InputField) -> ModelView {
        ModelView {
            input: InputModel { raw_input: self.field(field), direction: Some(field) },
            ..self
        }
    }

    /// The state after the edit was given up.
    pub open spec fn edit_cancelled(self) -> ModelView {
        ModelView { input: InputModel { raw_input: Seq::empty(), direction: None }, ..self }
    }

    /// The state after the edit was finished: the edited field has the text
    /// that was typed.
    pub open spec fn edit_finished(self) -> ModelView {
        ModelView {
            settings: match self.input.direction {
                Some(InputField::CompileCommand) => SettingsModel {
                    compilation_step: self.input.raw_input,
                    ..self.settings
                },
                Some(InputField::RunCommand) => SettingsModel {
                    run_step: self.input.raw_input,
                    ..self.settings
                },
                None => self.settings,
            },
            ..self.edit_cancelled()
        }
    }

    /// The state after going to a menu. Going to the solve menu loads the
    /// selected problem into the suite.
    pub open spec fn at(self, menu: Menu) -> ModelView {
        if menu == Menu::Solve {
            let problem = self.problems[self.selected_problem as int];
            let cases = loaded_cases(problem.name, problem.test_cases);
            ModelView {
                current_menu: menu,
                suite: SuiteModel {
                    test_cases: cases,
                    statuses: all_not_run(cases.len()),
                    ..self.suite
                },
                ..self
            }
        } else {
            ModelView { current_menu: menu, ..self }
        }
    }

    /// The state after a run was started: every status is `NotRun`.
    pub open spec fn run_started(self) -> ModelView {
        ModelView {
            suite: SuiteModel {
                statuses: all_not_run(self.suite.test_cases.len()),
                ..self.suite
            },
            ..self
        }
    }

    /// The request that starts a run of the suite with the settings' commands.
    pub open spec fn run_request(self) -> RequestModel {
        RequestModel::PleaseRun(
            RunDetailsModel {
                compile_script: self.settings.compilation_step,
                run_script: self.settings.run_step,
                test_cases: self.suite.test_cases,
            },
        )
    }

    /// The state after the updates of the worker were pulled.
    pub open spec fn pulled(self) -> ModelView {
        ModelView { suite: self.suite.pulled(), ..self }
    }

    /// How a command is shown: the text that is typed with a cursor behind
    /// it while the field is edited, and the command itself otherwise.
    pub open spec fn command_view(self, field: InputField) -> Seq<char> {
        if self.input.direction == Some(field) {
            self.input.raw_input + "|"@
        } else {
            self.field(field)
        }
    }
}

impl View for Model {
    type V = ModelView;

    open spec fn view(&self) -> ModelView {
        ModelView {
            problem_data_tab: self.problem_data_tab,
            input: self.input_handler@,
            settings: self.settings@,
            current_menu: self.current_menu,
            selected_test_case: self.selected_test_case,
            problems: problems_view(self.db@),
            suite: self.test_suite@,
            selected_problem: self.selected_problem,
        }
    }
}

impl Model {
    /// The state that the program refers to from its start: the select menu,
    /// the first problem, and an empty suite.
    pub fn new_ref(settings: Settings, db: Vec<Problem>) -> (model: Self)
        ensures
            model@.problem_data_tab == ProblemDataTab::Commands,
            model@.input == (InputModel { raw_input: Seq::empty(), direction: None }),
            model@.settings == settings@,
            model@.current_menu == Menu::Select,
            model@.selected_test_case == 0,
            model@.problems == problems_view(db@),
            model@.suite == TestSuite::new_model(),
            model@.selected_problem == 0,
    {
        Model {
            problem_data_tab: ProblemDataTab::default(),
            input_handler: InputHandler::default(),
            settings,
            current_menu: Menu::default(),
            selected_test_case: 0,
            db,
            test_suite: TestSuite::new(),
            selected_problem: 0,
        }
    }

    /// Whether the state is well formed: see `ModelView::wf`.
    pub fn is_wf(&self) -> (wf: bool)
        ensures
            wf == self@.wf(),
    {
        if self.selected_problem >= self.db.len() || !self.test_suite.is_wf() {
            return false;
        }
        let mut i: usize = 0;
        while i < self.db.len()
            invariant
                i <= self.db.len(),
                forall|k: int| 0 <= k < i ==> leaves_room(#[trigger] self@.problems[k]),
            decreases self.db.len() - i,
        {
            assert(self@.problems[i as int] == self.db[i as int]@);
            if !room_for_stress_tests(&self.db[i]) {
                return false;
            }
            i += 1;
        }
        true
    }

    /// The number of test cases of the suite.
    pub fn number_of_tests(&self) -> (n: usize)
        ensures
            n == self@.suite.test_cases.len(),
    {
        self.test_suite.number_of_tests()
    }

    /// Selects the next or the previous test case.
    pub fn select_test_case(&mut self, dir: Direction)
        requires
            dir == Direction::Next ==> old(self)@.suite.test_cases.len() > 0,
        ensures
            final(self)@ == old(self)@.test_case_selected(dir),
    {
        let n = self.number_of_tests();
        self.selected_test_case = move_index(self.selected_test_case, n, dir);
    }

    /// Selects the next or the previous problem.
    pub fn select_problem(&mut self, dir: Direction)
        requires
            dir == Direction::Next ==> old(self)@.problems.len() > 0,
        ensures
            final(self)@ == old(self)@.problem_selected(dir),
    {
        let n = self.total_problems();
        self.selected_problem = move_index(self.selected_problem, n, dir);
    }

    /// Starts editing a field, from its current value.
    pub fn start_editing_field(&mut self, field: InputField)
        ensures
            final(self)@ == old(self)@.editing(field),
    {
        let current_value = self.get_field(field);
        self.input_handler.edit_field(current_value, field);
    }

    /// Goes to a menu; the solve menu loads the selected problem.
    pub fn go_to(&mut self, menu: Menu)
        requires
            menu == Menu::Solve ==> old(self)@.selected_problem < old(self)@.problems.len()
                && leaves_room(old(self)@.problems[old(self)@.selected_problem as int]),
        ensures
            final(self)@ == old(self)@.at(menu),
    {
        self.current_menu = menu;
        match menu {
            Menu::Solve => {
                assert(self@.problems[self.selected_problem as int]
                    == self.db[self.selected_problem as int]@);
                self.test_suite.set_test_cases_from(&self.db[self.selected_problem]);
            },
            _ => {},
        }
    }

    /// Gives up the edit.
    pub fn cancel_editing_field(&mut self)
        ensures
            final(self)@ == old(self)@.edit_cancelled(),
    {
        let _ = self.input_handler.finish();
    }

    /// The request that cancels the run in progress.
    pub fn cancel_run(&self) -> (request: RunRequest)
        ensures
            request@ == RequestModel::PleaseStop,
    {
        self.test_suite.stop()
    }

    /// Starts a run of all test cases with the commands of the settings, and
    /// hands back the request to send.
    pub fn run_all_test_cases(&mut self) -> (request: RunRequest)
        ensures
            final(self)@ == old(self)@.run_started(),
            request@ == old(self)@.run_request(),
    {
        let compile_script = self.settings.compilation_step.clone();
        let run_script = self.settings.run_step.clone();
        self.test_suite.run(compile_script, run_script)
    }

    /// The selected problem.
    pub fn current_problem(&self) -> (problem: &Problem)
        requires
            self@.selected_problem < self@.problems.len(),
        ensures
            problem@ == self@.problems[self@.selected_problem as int],
    {
        &self.db[self.selected_problem]
    }

    /// All problems.
    pub fn get_problems(&self) -> (problems: &Vec<Problem>)
        ensures
            problems_view(problems@) == self@.problems,
    {
        &self.db
    }

    /// The command that a field stands for.
    pub fn get_field(&self, field: InputField) -> (text: String)
        ensures
            text@ == self@.field(field),
    {
        match field {
            InputField::CompileCommand => self.settings.compilation_step.clone(),
            InputField::RunCommand => self.settings.run_step.clone(),
        }
    }

    /// The number of problems.
    pub fn total_problems(&self) -> (n: usize)
        ensures
            n == self@.problems.len(),
    {
        self.db.len()
    }

    /// Finishes the edit: the edited field takes the text that was typed.
    pub fn finish_edit(&mut self)
        ensures
            final(self)@ == old(self)@.edit_finished(),
    {
        let field = self.input_handler.current_field();
        let finished_input = self.input_handler.finish();
        match field {
            Some(InputField::CompileCommand) => {
                self.settings.compilation_step = finished_input;
            },
            Some(InputField::RunCommand) => {
                self.settings.run_step = finished_input;
            },
            None => {},
        }
    }

    /// The statuses of all test cases, after pulling the worker's updates.
    pub fn get_test_cases(&mut self) -> (statuses: Vec<TestCaseStatus>)
        requires
            old(self)@.suite.updates_in_range(),
        ensures
            final(self)@ == old(self)@.pulled(),
            statuses_view(statuses@) == final(self)@.suite.statuses,
    {
        self.test_suite.get_test_cases()
    }

    /// The selected test case and its status, after pulling the worker's
    /// updates.
    pub fn details_for_selected_test_case(&mut self) -> (details: (usize, TestCaseStatus))
        requires
            old(self)@.suite.updates_in_range(),
            old(self)@.selected_test_case < old(self)@.suite.statuses.len(),
        ensures
            final(self)@ == old(self)@.pulled(),
            details.0 == old(self)@.selected_test_case,
            details.1@ == final(self)@.suite.statuses[details.0 as int],
    {
        let selected_id = self.selected_test_case;
        (selected_id, self.test_suite.get_nth_test_case(selected_id))
    }

    /// Pulls the worker's updates, then tells whether results arrived since
    /// the last call, and forgets it.
    pub fn check_for_changes(&mut self) -> (changes: bool)
        requires
            old(self)@.suite.updates_in_range(),
        ensures
            changes == old(self)@.pulled().suite.changed,
            final(self)@ == (ModelView {
                suite: SuiteModel { changed: false, ..old(self)@.pulled().suite },
                ..old(self)@
            }),
    {
        self.test_suite.check_for_changes()
    }

    /// The request that ends whatever the worker runs.
    pub fn kill_all_processes(&self) -> (request: RunRequest)
        ensures
            request@ == RequestModel::PleaseStop,
    {
        self.test_suite.stop()
    }

    /// The sign in front of the selected entry of a list.
    pub fn get_cursor(&self) -> (sign: String)
        ensures
            sign@ == if self@.settings.pretty {
                " 🡆  "@
            } else {
                " -> "@
            },
    {
        if self.settings.pretty {
            " 🡆  ".to_string()
        } else {
            " -> ".to_string()
        }
    }

    /// How a command is shown: see `ModelView::command_view`.
    pub fn command_view(&self, field: InputField) -> (text: String)
        ensures
            text@ == self@.command_view(field),
    {
        let edited = match self.input_handler.current_field() {
            Some(current) => current == field,
            None => false,
        };
        if edited {
            self.input_handler.curr_input().concat("|")
        } else {
            self.get_field(field)
        }
    }

    /// How the compile command is shown.
    pub fn compile_command_view(&self) -> (text: String)
        ensures
            text@ == self@.command_view(InputField::CompileCommand),
    {
        self.command_view(InputField::CompileCommand)
    }

    /// How the run command is shown.
    pub fn run_command_view(&self) -> (text: String)
        ensures
            text@ == self@.command_view(InputField::RunCommand),
    {
        self.command_view(InputField::RunCommand)
    }
}

} // verus!
