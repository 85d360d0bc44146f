use vstd::prelude::*;
use crate::keybinds::{action_for, bound_action, KeybindType};
use crate::util::Key;

verus! {

/// What the dashboard shows.
#[derive(Clone, Copy, Debug, PartialEq, Eq, Structural)]
pub enum View {
    List,
    Logs,
    QuitConfirm,
}

/// What a key press asks of the supervised processes.
#[derive(Clone, Copy, Debug, PartialEq, Eq, Structural)]
pub enum Action {
    Nothing,
    Start(usize),
    Stop(usize),
    Restart(usize),
    Quit,
}

/// The navigation state of the dashboard over `count` processes.
#[derive(Clone, Copy, Debug, PartialEq, Eq, Structural)]
pub struct App {
    pub selected: usize,
    pub count: usize,
    pub view: View,
    pub log_scroll: u16,
}

impl App {
    /// The selection is a process of the list, or 0 when the list is empty.
    pub open spec fn wf(self) -> bool {
        self.selected < self.count || (self.count == 0 && self.selected == 0)
    }

    pub open spec fn next_index(self) -> usize {
        if self.selected + 1 >= self.count {
            0
        } else {
            (self.selected + 1) as usize
        }
    }

    pub open spec fn previous_index(self) -> usize {
        if self.selected == 0 {
            (self.count - 1) as usize
        } else {
            (self.selected - 1) as usize
        }
    }

    /// The state and the action after pressing `code`.
    pub open spec fn on_key(self, code: Key) -> (App, Action) {
        match self.view {
            View::List => match bound_action(code) {
                Some(KeybindType::Down) => (App { selected: self.next_index(), ..self }, Action::Nothing),
                Some(KeybindType::Up) => if self.count > 0 {
                    (App { selected: self.previous_index(), ..self }, Action::Nothing)
                } else {
                    (self, Action::Nothing)
                },
                Some(KeybindType::Restart) => (self, if self.count > 0 {
                    Action::Restart(self.selected)
                } else {
                    Action::Nothing
                }),
                Some(KeybindType::Stop) => (self, if self.count > 0 {
                    Action::Stop(self.selected)
                } else {
                    Action::Nothing
                }),
                Some(KeybindType::Start) => (self, if self.count > 0 {
                    Action::Start(self.selected)
                } else {
                    Action::Nothing
                }),
                Some(KeybindType::Enter) => (App { view: View::Logs, ..self }, Action::Nothing),
                Some(KeybindType::Quit) => (App { view: View::QuitConfirm, ..self }, Action::Nothing),
                _ => (self, Action::Nothing),
            },
            View::QuitConfirm => match code {
                Key::Char('y') => (self, Action::Quit),
                Key::Char('n') | Key::Esc => (App { view: View::List, ..self }, Action::Nothing),
                _ => (self, Action::Nothing),
            },
            View::Logs => match bound_action(code) {
                Some(KeybindType::Escape) => (App { view: View::List, ..self }, Action::Nothing),
                Some(KeybindType::Up) => if self.log_scroll > 0 {
                    (App { log_scroll: (self.log_scroll - 1) as u16, ..self }, Action::Nothing)
                } else {
                    (self, Action::Nothing)
                },
                Some(KeybindType::Down) => if self.log_scroll < u16::MAX {
                    (App { log_scroll: (self.log_scroll + 1) as u16, ..self }, Action::Nothing)
                } else {
                    (self, Action::Nothing)
                },
                _ => (self, Action::Nothing),
            },
        }
    }

    /// The list view over `count` processes, with the first one selected.
    pub fn new(count: usize) -> (r: App)
        ensures
            r.wf(),
            r == (App { selected: 0, count, view: View::List, log_scroll: 0 }),
    {
        App { selected: 0, count, view: View::List, log_scroll: 0 }
    }

    pub fn selected(&self) -> (r: usize)
        ensures
            r == self.selected,
    {
        self.selected
    }

    /// Selects the next process, wrapping to the first.
    pub fn next(&mut self)
        requires
            old(self).wf(),
        ensures
            final(self).wf(),
            *final(self) == (App { selected: old(self).next_index(), ..*old(self) }),
    {
        let next = if self.selected >= self.count || self.count - self.selected <= 1 {
            0
        } else {
            self.selected + 1
        };
        self.selected = next;
    }

    /// Selects the previous process, wrapping to the last.
    pub fn previous(&mut self)
        requires
            old(self).wf(),
            old(self).count > 0,
        ensures
            final(self).wf(),
            *final(self) == (App { selected: old(self).previous_index(), ..*old(self) }),
    {
        let prev = if self.selected == 0 {
            self.count - 1
        } else {
            self.selected - 1
        };
        self.selected = prev;
    }
}

/// Applies one key press to the dashboard state and returns what it asks
/// of the processes.
pub fn handle_key(app: &mut App, code: Key) -> (r: Action)
    requires
        old(app).wf(),
    ensures
        final(app).wf(),
        (*final(app), r) == old(app).on_key(code),
{
    match app.view {
        View::List => {
            match action_for(&code) {
                Some(KeybindType::Down) => {
                    app.next();
                    Action::Nothing
                },
                Some(KeybindType::Up) => {
                    if app.count > 0 {
                        app.previous();
                    }
                    Action::Nothing
                },
                Some(KeybindType::Restart) => if app.count > 0 {
                    Action::Restart(app.selected)
                } else {
                    Action::Nothing
                },
                Some(KeybindType::Stop) => if app.count > 0 {
                    Action::Stop(app.selected)
                } else {
                    Action::Nothing
                },
                Some(KeybindType::Start) => if app.count > 0 {
                    Action::Start(app.selected)
                } else {
                    Action::Nothing
                },
                Some(KeybindType::Enter) => {
                    app.view = View::Logs;
                    Action::Nothing
                },
                Some(KeybindType::Quit) => {
                    app.view = View::QuitConfirm;
                    Action::Nothing
                },
                _ => Action::Nothing,
            }
        },
        View::QuitConfirm => {
            match code {
                Key::Char(c) => {
                    if c == 'y' {
                        Action::Quit
                    } else {
                        if c == 'n' {
                            app.view = View::List;
                        }
                        Action::Nothing
                    }
                },
                Key::Esc => {
                    app.view = View::List;
                    Action::Nothing
                },
                _ => Action::Nothing,
            }
        },
        View::Logs => {
            match action_for(&code) {
                Some(KeybindType::Escape) => {
                    app.view = View::List;
                },
                Some(KeybindType::Up) => {
                    if app.log_scroll > 0 {
                        app.log_scroll = app.log_scroll - 1;
                    }
                },
                Some(KeybindType::Down) => {
                    if app.log_scroll < u16::MAX {
                        app.log_scroll = app.log_scroll + 1;
                    }
                },
                _ => {},
            }
            Action::Nothing
        },
    }
}

} // verus!
