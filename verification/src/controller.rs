//! How the program reacts to the keyboard: which change of the state and
//! which request to the worker follow an event in each menu.

use crate::common::{
    Direction, InputField, Menu, ProblemDataTab, RequestModel, RunRequest,
};
use crate::input_handler::InputModel;
use crate::model::{Model, ModelView};
use vstd::prelude::*;

verus! {

/// What follows an event.
#[derive(Debug, Clone, Copy, PartialEq, Eq, Structural)]
pub enum AfterEvent {
    Quit,
    DoRefresh,
    NoRefresh,
}

impl Default for AfterEvent {
    fn default() -> (after: Self)
        ensures
            after == AfterEvent::DoRefresh,
    {
        AfterEvent::DoRefresh
    }
}

impl AfterEvent {
    /// Whether the program is to end.
    pub fn is_quit(&self) -> (quit: bool)
        ensures
            quit == (*self == AfterEvent::Quit),
    {
        match self {
            AfterEvent::Quit => true,
            _ => false,
        }
    }
}

/// The keys that the program tells apart.
#[derive(Debug, Clone, Copy, PartialEq, Eq, Structural)]
pub enum KeyCode {
    Char(char),
    Up,
    Down,
    Left,
    Right,
    Enter,
    Esc,
    Backspace,
    PageUp,
    Other,
}

/// A key, and whether it was pressed with the control key and no other
/// modifier.
#[derive(Debug, Clone, Copy, PartialEq, Eq, Structural)]
pub struct KeyEvent {
    pub code: KeyCode,
    pub control: bool,
}

/// What the terminal reports.
#[derive(Debug, Clone, Copy, PartialEq, Eq, Structural)]
pub enum Event {
    Key(KeyEvent),
    Resize,
    Other,
}

/// What the program does after an event: whether it redraws or ends, and
/// the request to send to the worker, if any.
#[derive(Debug, PartialEq, Eq)]
pub struct Reaction {
    pub after: AfterEvent,
    pub request: Option<RunRequest>,
}

/// An event's effect: what follows, the request to send, and the new state.
pub ghost struct Outcome {
    pub after: AfterEvent,
    pub request: Option<RequestModel>,
    pub model: ModelView,
}

/// An effect that redraws, with the state it leads to.
pub open spec fn refresh(model: ModelView) -> Outcome {
    Outcome { after: AfterEvent::DoRefresh, request: None, model }
}

/// No effect.
pub open spec fn ignore(model: ModelView) -> Outcome {
    Outcome { after: AfterEvent::NoRefresh, request: None, model }
}

/// The effect of an event while a command is edited: a character is added,
/// backspace removes the last one, enter takes the text over, escape gives
/// the edit up.
pub open spec fn input_outcome(model: ModelView, event: Event) -> Outcome {
    match event {
        Event::Key(key) => match key.code {
            KeyCode::Char(c) => refresh(
                ModelView {
                    input: InputModel { raw_input: model.input.raw_input.push(c), ..model.input },
                    ..model
                },
            ),
            KeyCode::Esc => refresh(model.edit_cancelled()),
            KeyCode::Backspace => refresh(
                ModelView {
                    input: InputModel {
                        raw_input: if model.input.raw_input.len() > 0 {
                            model.input.raw_input.drop_last()
                        } else {
                            model.input.raw_input
                        },
                        ..model.input
                    },
                    ..model
                },
            ),
            KeyCode::Enter => refresh(model.edit_finished()),
            _ => ignore(model),
        },
        _ => refresh(model),
    }
}

/// The state with another tab shown under the problem.
pub open spec fn showing(model: ModelView, tab: ProblemDataTab) -> ModelView {
    ModelView { problem_data_tab: tab, ..model }
}

/// The effect of an event in the solve menu.
pub open spec fn problem_outcome(model: ModelView, event: Event) -> Outcome {
    if model.input.direction is Some {
        input_outcome(model, event)
    } else {
        match event {
            Event::Key(key) => if model.problem_data_tab == ProblemDataTab::Details && key.code
                == KeyCode::Left {
                refresh(model.test_case_selected(Direction::Previous))
            } else if model.problem_data_tab == ProblemDataTab::Details && key.code
                == KeyCode::Right {
                refresh(model.test_case_selected(Direction::Next))
            } else {
                match key.code {
                    KeyCode::Char(c) => if c == 'c' {
                        refresh(
                            showing(model, ProblemDataTab::Commands).editing(
                                InputField::CompileCommand,
                            ),
                        )
                    } else if c == 'r' {
                        refresh(
                            showing(model, ProblemDataTab::Commands).editing(
                                InputField::RunCommand,
                            ),
                        )
                    } else if c == 's' {
                        refresh(showing(model, ProblemDataTab::Commands))
                    } else if c == 't' {
                        refresh(showing(model, ProblemDataTab::TestCases))
                    } else if c == 'd' {
                        refresh(showing(model, ProblemDataTab::Details))
                    } else if c == 'p' {
                        refresh(showing(model, ProblemDataTab::Performance))
                    } else if c == 'q' {
                        refresh(model.at(Menu::Select))
                    } else {
                        ignore(model)
                    },
                    KeyCode::Enter => Outcome {
                        after: AfterEvent::DoRefresh,
                        request: Some(model.run_request()),
                        model: model.run_started(),
                    },
                    KeyCode::Backspace => Outcome {
                        after: AfterEvent::DoRefresh,
                        request: Some(RequestModel::PleaseStop),
                        model,
                    },
                    _ => ignore(model),
                }
            },
            _ => ignore(model),
        }
    }
}

/// The effect of an event in the select menu.
pub open spec fn select_outcome(model: ModelView, event: Event) -> Outcome {
    match event {
        Event::Key(key) => match key.code {
            KeyCode::Char(c) => if c == 'j' {
                refresh(model.problem_selected(Direction::Next))
            } else if c == 'k' {
                refresh(model.problem_selected(Direction::Previous))
            } else {
                ignore(model)
            },
            KeyCode::Up => refresh(model.problem_selected(Direction::Previous)),
            KeyCode::Down => refresh(model.problem_selected(Direction::Next)),
            KeyCode::Enter => refresh(model.at(Menu::Solve)),
            _ => ignore(model),
        },
        _ => ignore(model),
    }
}

/// The effect of a key that no menu has taken: `q` and control-c end the
/// program, `h` shows the help.
pub open spec fn universal_outcome(model: ModelView, key: KeyEvent) -> Outcome {
    match key.code {
        KeyCode::Char(c) => if c == 'q' || (c == 'c' && key.control) {
            Outcome { after: AfterEvent::Quit, request: None, model }
        } else if c == 'h' {
            refresh(model.at(Menu::Help))
        } else {
            ignore(model)
        },
        _ => ignore(model),
    }
}

/// The effect of an event on the program. A resize redraws. A key goes to
/// the current menu, any key leaves the help, and a key that the menu did
/// not take is tried as a universal one.
pub open spec fn main_outcome(model: ModelView, event: Event) -> Outcome {
    match event {
        Event::Resize => refresh(model),
        Event::Key(key) => {
            let by_menu = match model.current_menu {
                Menu::Help => refresh(model.at(Menu::Select)),
                Menu::Select => select_outcome(model, event),
                Menu::Solve => problem_outcome(model, event),
            };
            if by_menu.after == AfterEvent::NoRefresh {
                universal_outcome(by_menu.model, key)
            } else {
                by_menu
            }
        },
        Event::Other => ignore(model),
    }
}

/// Whether the event selects the next test case: the right arrow, on the
/// details tab of the solve menu, while nothing is edited.
pub open spec fn selects_next_test_case(model: ModelView, event: Event) -> bool {
    &&& model.current_menu == Menu::Solve
    &&& model.input.direction is None
    &&& model.problem_data_tab == ProblemDataTab::Details
    &&& match event {
        Event::Key(key) => key.code == KeyCode::Right,
        _ => false,
    }
}

/// Whether the program can react to the event: the state is well formed,
/// and a move to the next test case finds a test case.
pub open spec fn can_react(model: ModelView, event: Event) -> bool {
    &&& model.wf()
    &&& selects_next_test_case(model, event) ==> model.suite.test_cases.len() > 0
}

/// The view of a request that may be missing.
pub open spec fn request_view(request: Option<RunRequest>) -> Option<RequestModel> {
    match request {
        Some(r) => Some(r@),
        None => None,
    }
}

impl Reaction {
    /// The effect that a reaction and the state after it stand for.
    pub open spec fn outcome(self, model: ModelView) -> Outcome {
        Outcome { after: self.after, request: request_view(self.request), model }
    }
}

fn refreshed() -> (reaction: Reaction)
    ensures
        reaction.after == AfterEvent::DoRefresh,
        reaction.request is None,
{
    Reaction { after: AfterEvent::DoRefresh, request: None }
}

fn ignored() -> (reaction: Reaction)
    ensures
        reaction.after == AfterEvent::NoRefresh,
        reaction.request is None,
{
    Reaction { after: AfterEvent::NoRefresh, request: None }
}

/// Reactions while a command is edited.
pub struct InputController;

impl InputController {
    /// Reacts to an event while a command is edited: see `input_outcome`.
    pub fn react_to_event(model: &mut Model, event: Event) -> (reaction: Reaction)
        requires
            old(model)@.input.direction is Some,
        ensures
            reaction.outcome(final(model)@) == input_outcome(old(model)@, event),
    {
        match event {
            Event::Key(key) => match key.code {
                KeyCode::Char(c) => {
                    model.input_handler.add(c);
                    refreshed()
                },
                KeyCode::Esc => {
                    model.cancel_editing_field();
                    refreshed()
                },
                KeyCode::Backspace => {
                    model.input_handler.pop();
                    refreshed()
                },
                KeyCode::Enter => {
                    model.finish_edit();
                    refreshed()
                },
                _ => ignored(),
            },
            _ => refreshed(),
        }
    }
}

/// Reactions in the solve menu.
pub struct ProblemScreenController;

impl ProblemScreenController {
    /// Reacts to an event in the solve menu: see `problem_outcome`.
    pub fn react_to_event(model: &mut Model, event: Event) -> (reaction: Reaction)
        requires
            old(model)@.current_menu == Menu::Solve,
            can_react(old(model)@, event),
        ensures
            reaction.outcome(final(model)@) == problem_outcome(old(model)@, event),
            final(model)@.wf(),
    {
        if model.input_handler.is_in_input_mode() {
            return InputController::react_to_event(model, event);
        }
        match event {
            Event::Key(key) => {
                let details = match model.problem_data_tab {
                    ProblemDataTab::Details => true,
                    _ => false,
                };
                if details {
                    match key.code {
                        KeyCode::Left => {
                            model.select_test_case(Direction::Previous);
                            return refreshed();
                        },
                        KeyCode::Right => {
                            model.select_test_case(Direction::Next);
                            return refreshed();
                        },
                        _ => {},
                    }
                }
                match key.code {
                    KeyCode::Char(c) => {
                        if c == 'c' {
                            model.problem_data_tab = ProblemDataTab::Commands;
                            model.start_editing_field(InputField::CompileCommand);
                            refreshed()
                        } else if c == 'r' {
                            model.problem_data_tab = ProblemDataTab::Commands;
                            model.start_editing_field(InputField::RunCommand);
                            refreshed()
                        } else if c == 's' {
                            model.problem_data_tab = ProblemDataTab::Commands;
                            refreshed()
                        } else if c == 't' {
                            model.problem_data_tab = ProblemDataTab::TestCases;
                            refreshed()
                        } else if c == 'd' {
                            model.problem_data_tab = ProblemDataTab::Details;
                            refreshed()
                        } else if c == 'p' {
                            model.problem_data_tab = ProblemDataTab::Performance;
                            refreshed()
                        } else if c == 'q' {
                            model.go_to(Menu::Select);
                            refreshed()
                        } else {
                            ignored()
                        }
                    },
                    KeyCode::Enter => {
                        let request = model.run_all_test_cases();
                        Reaction { after: AfterEvent::DoRefresh, request: Some(request) }
                    },
                    KeyCode::Backspace => {
                        let request = model.cancel_run();
                        Reaction { after: AfterEvent::DoRefresh, request: Some(request) }
                    },
                    _ => ignored(),
                }
            },
            _ => ignored(),
        }
    }
}

/// Reactions in the select menu.
pub struct SelectScreenController;

impl SelectScreenController {
    /// Reacts to an event in the select menu: see `select_outcome`.
    pub fn react_to_event(model: &mut Model, event: Event) -> (reaction: Reaction)
        requires
            old(model)@.wf(),
        ensures
            reaction.outcome(final(model)@) == select_outcome(old(model)@, event),
            final(model)@.wf(),
    {
        match event {
            Event::Key(key) => match key.code {
                KeyCode::Char(c) => {
                    if c == 'j' {
                        model.select_problem(Direction::Next);
                        refreshed()
                    } else if c == 'k' {
                        model.select_problem(Direction::Previous);
                        refreshed()
                    } else {
                        ignored()
                    }
                },
                KeyCode::Up => {
                    model.select_problem(Direction::Previous);
                    refreshed()
                },
                KeyCode::Down => {
                    model.select_problem(Direction::Next);
                    refreshed()
                },
                KeyCode::Enter => {
                    model.go_to(Menu::Solve);
                    refreshed()
                },
                _ => ignored(),
            },
            _ => ignored(),
        }
    }
}

/// Reactions of the program as a whole.
pub struct MainController;

impl MainController {
    /// Whether the program can react to the event: see `can_react`.
    pub fn can_react_to(model: &Model, event: Event) -> (ok: bool)
        ensures
            ok == can_react(model@, event),
    {
        if !model.is_wf() {
            return false;
        }
        let right = match event {
            Event::Key(key) => match key.code {
                KeyCode::Right => true,
                _ => false,
            },
            _ => false,
        };
        let solving = match model.current_menu {
            Menu::Solve => true,
            _ => false,
        };
        let details = match model.problem_data_tab {
            ProblemDataTab::Details => true,
            _ => false,
        };
        if solving && details && right && !model.input_handler.is_in_input_mode() {
            model.number_of_tests() > 0
        } else {
            true
        }
    }

    /// Reacts to an event: see `main_outcome`.
    pub fn react_to_event(model: &mut Model, event: Event) -> (reaction: Reaction)
        requires
            can_react(old(model)@, event),
        ensures
            reaction.outcome(final(model)@) == main_outcome(old(model)@, event),
            final(model)@.wf(),
    {
        match event {
            Event::Resize => refreshed(),
            Event::Key(key) => {
                let by_menu = match model.current_menu {
                    Menu::Help => {
                        model.go_to(Menu::Select);
                        refreshed()
                    },
                    Menu::Select => SelectScreenController::react_to_event(model, event),
                    Menu::Solve => ProblemScreenController::react_to_event(model, event),
                };
                match by_menu.after {
                    AfterEvent::NoRefresh => Self::universal_actions(model, key),
                    _ => by_menu,
                }
            },
            Event::Other => ignored(),
        }
    }

    fn universal_actions(model: &mut Model, key: KeyEvent) -> (reaction: Reaction)
        ensures
            reaction.outcome(final(model)@) == universal_outcome(old(model)@, key),
            old(model)@.wf() ==> final(model)@.wf(),
    {
        match key.code {
            KeyCode::Char(c) => {
                if c == 'q' || (c == 'c' && key.control) {
                    Reaction { after: AfterEvent::Quit, request: None }
                } else if c == 'h' {
                    model.go_to(Menu::Help);
                    refreshed()
                } else {
                    ignored()
                }
            },
            _ => ignored(),
        }
    }

    /// The request that ends whatever the worker runs.
    pub fn kill_all_processes(model: &Model) -> (request: RunRequest)
        ensures
            request@ == RequestModel::PleaseStop,
    {
        model.kill_all_processes()
    }
}

} // verus!
