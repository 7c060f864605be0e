//! The interactive state: which tab is shown, where the process table is
//! scrolled to, and which row the cursor is on. It holds positions into the
//! offered process list only, never process data; every operation takes the
//! current snapshot and measures against it.

use vstd::prelude::*;
use crate::model::{ProcessRecord, offered, offered_count, offered_processes};
use crate::control::{
    ControlError, ControlSignal, change_priority, nice_in_range, priority_outcome, send_signal,
    signal_outcome, validate_priority,
};
use crate::tabs::{SelectedTab, tab_after, tab_before};

verus! {

/// Whether the interactive loop goes on.
#[derive(Clone, Copy, Debug, PartialEq, Eq, Structural)]
pub enum AppState {
    Running,
    Quitting,
}

/// One abstract intent of the operator, decoded from a key press.
#[derive(Clone, Copy, Debug, PartialEq, Eq, Structural)]
pub enum Command {
    NextTab,
    PreviousTab,
    Quit,
    ToggleCursor,
    Up,
    Down,
    Kill,
    Terminate,
    Suspend,
    Resume,
    TogglePriorityEntry,
    SetPriority(i32),
}

/// Which set of key hints the footer shows.
#[derive(Clone, Copy, Debug, PartialEq, Eq, Structural)]
pub enum FooterHint {
    /// Tab switching and quitting only.
    Navigation,
    /// Also entering cursor mode, on the process tab.
    ProcessTab,
    /// The actions on the cursor row.
    CursorActions,
    /// Entry of a new priority.
    PriorityEntry,
}

/// An index that fits a list of `len` rows: below `len`, or 0 when it is empty.
pub open spec fn fits(i: nat, len: nat) -> bool {
    if len == 0 {
        i == 0
    } else {
        i < len
    }
}

/// `i` brought into a list of `len` rows.
pub open spec fn limit(i: nat, len: nat) -> nat {
    if len == 0 {
        0
    } else if i < len {
        i
    } else {
        (len - 1) as nat
    }
}

/// One row up from `i`, if there is a row above it, in a list of `len` rows.
pub open spec fn step_up(i: nat, len: nat) -> nat {
    if limit(i, len) > 0 {
        (limit(i, len) - 1) as nat
    } else {
        limit(i, len)
    }
}

/// One row down from `i`, if there is a row below it, in a list of `len` rows.
pub open spec fn step_down(i: nat, len: nat) -> nat {
    if limit(i, len) + 1 < len {
        limit(i, len) + 1
    } else {
        limit(i, len)
    }
}

/// Proves that a limited index fits the list.
pub proof fn lemma_limit_fits(i: nat, len: nat)
    ensures
        fits(limit(i, len), len),
        fits(step_up(i, len), len),
        fits(step_down(i, len), len),
        fits(i, len) ==> limit(i, len) == i,
{
}

/// A navigation step of the selection.
#[derive(Clone, Copy, Debug, PartialEq, Eq, Structural)]
pub enum Nav {
    ScrollUp,
    ScrollDown,
    ToggleCursor,
    CursorUp,
    CursorDown,
}

/// Where the selection is: first visible row, cursor row, cursor mode.
pub struct Position {
    pub scroll: nat,
    pub row: nat,
    pub cursed: bool,
}

/// The position after `step` on an offered list of `len` rows.
pub open spec fn nav_step(p: Position, step: Nav, len: nat) -> Position {
    match step {
        Nav::ScrollUp => Position { scroll: step_up(p.scroll, len), row: limit(p.row, len), cursed: p.cursed },
        Nav::ScrollDown => Position { scroll: step_down(p.scroll, len), row: limit(p.row, len), cursed: p.cursed },
        Nav::ToggleCursor => Position {
            scroll: limit(p.scroll, len),
            row: if !p.cursed { limit(p.scroll, len) } else { limit(p.row, len) },
            cursed: !p.cursed,
        },
        Nav::CursorUp => Position {
            scroll: limit(p.scroll, len),
            row: if p.cursed { step_up(p.row, len) } else { limit(p.row, len) },
            cursed: p.cursed,
        },
        Nav::CursorDown => Position {
            scroll: limit(p.scroll, len),
            row: if p.cursed { step_down(p.row, len) } else { limit(p.row, len) },
            cursed: p.cursed,
        },
    }
}

/// The position after each of `steps`, in order, each on the list length it names.
pub open spec fn nav_run(p: Position, steps: Seq<(Nav, nat)>) -> Position
    decreases steps.len(),
{
    if steps.len() == 0 {
        p
    } else {
        let before = nav_run(p, steps.drop_last());
        nav_step(before, steps.last().0, steps.last().1)
    }
}

/// Proves that whatever the start, and however the list length changes
/// between steps (down to empty), after any non-empty run of navigation steps
/// neither position is negative nor reaches the list length of the last step,
/// or both are 0 if that list is empty.
pub proof fn lemma_navigation_stays_in_bounds(p: Position, steps: Seq<(Nav, nat)>)
    requires
        steps.len() > 0,
    ensures
        fits(nav_run(p, steps).scroll, steps.last().1),
        fits(nav_run(p, steps).row, steps.last().1),
{
    let before = nav_run(p, steps.drop_last());
    lemma_limit_fits(before.scroll, steps.last().1);
    lemma_limit_fits(before.row, steps.last().1);
}

fn limit_exec(i: usize, len: usize) -> (r: usize)
    ensures
        r == limit(i as nat, len as nat),
{
    if len == 0 {
        0
    } else if i < len {
        i
    } else {
        len - 1
    }
}

/// The interactive state of the monitor.
pub struct App {
    pub state: AppState,
    pub selected_tab: SelectedTab,
    /// Cursor row, an index into the offered process list.
    pub selected_row: usize,
    /// Whether the arrows move the cursor rather than the view.
    pub is_cursed: bool,
    /// First visible row, an index into the offered process list.
    pub vertical_scroll: usize,
    /// Whether a new priority is being entered for the cursor row.
    pub is_priority: bool,
    /// Owner whose processes are never offered as targets.
    pub protected_owner: String,
}

impl Default for App {
    fn default() -> (r: App)
        ensures
            r.state == AppState::Running,
            r.selected_tab == SelectedTab::Tab1,
            r.selected_row == 0,
            !r.is_cursed,
            r.vertical_scroll == 0,
            !r.is_priority,
            r.protected_owner@ == "root"@,
    {
        App::new("root".to_string())
    }
}

impl App {
    /// A running monitor on the first tab, scrolled to the top, that never
    /// offers the processes of `protected_owner`.
    pub fn new(protected_owner: String) -> (r: App)
        ensures
            r.state == AppState::Running,
            r.selected_tab == SelectedTab::Tab1,
            r.selected_row == 0,
            !r.is_cursed,
            r.vertical_scroll == 0,
            !r.is_priority,
            r.protected_owner == protected_owner,
    {
        App {
            state: AppState::Running,
            selected_tab: SelectedTab::Tab1,
            selected_row: 0,
            is_cursed: false,
            vertical_scroll: 0,
            is_priority: false,
            protected_owner,
        }
    }

    /// The selection's position.
    pub open spec fn position(self) -> Position {
        Position { scroll: self.vertical_scroll as nat, row: self.selected_row as nat, cursed: self.is_cursed }
    }

    /// Both positions fit the offered list of `len` rows.
    pub open spec fn selection_fits(self, len: nat) -> bool {
        fits(self.vertical_scroll as nat, len) && fits(self.selected_row as nat, len)
    }

    /// Number of rows the operator is offered in `processes`.
    pub open spec fn offered_len(self, processes: Seq<ProcessRecord>) -> nat {
        offered(processes, self.protected_owner@).len()
    }

    /// The offered processes of `processes`, in order.
    pub fn visible_processes(&self, processes: &Vec<ProcessRecord>) -> (r: Vec<ProcessRecord>)
        ensures
            r@ == offered(processes@, self.protected_owner@),
    {
        offered_processes(processes, &self.protected_owner)
    }

    /// Scrolls the view one row up; at the top it stays.
    pub fn scroll_up(&mut self, processes: &Vec<ProcessRecord>)
        ensures
            final(self).position() == nav_step(old(self).position(), Nav::ScrollUp, old(self).offered_len(processes@)),
            ({
                let len = old(self).offered_len(processes@);
                &&& final(self).vertical_scroll == step_up(old(self).vertical_scroll as nat, len)
                &&& final(self).selected_row == limit(old(self).selected_row as nat, len)
                &&& final(self).selection_fits(len)
            }),
            final(self).is_cursed == old(self).is_cursed,
            final(self).is_priority == old(self).is_priority,
            final(self).selected_tab == old(self).selected_tab,
            final(self).state == old(self).state,
            final(self).protected_owner == old(self).protected_owner,
    {
        let len = offered_count(processes, &self.protected_owner);
        let top = limit_exec(self.vertical_scroll, len);
        self.vertical_scroll = if top > 0 { top - 1 } else { top };
        self.selected_row = limit_exec(self.selected_row, len);
        proof {
            lemma_limit_fits(old(self).vertical_scroll as nat, len as nat);
            lemma_limit_fits(old(self).selected_row as nat, len as nat);
        }
    }

    /// Scrolls the view one row down; at the last row it stays.
    pub fn scroll_down(&mut self, processes: &Vec<ProcessRecord>)
        ensures
            final(self).position() == nav_step(old(self).position(), Nav::ScrollDown, old(self).offered_len(processes@)),
            ({
                let len = old(self).offered_len(processes@);
                &&& final(self).vertical_scroll == step_down(old(self).vertical_scroll as nat, len)
                &&& final(self).selected_row == limit(old(self).selected_row as nat, len)
                &&& final(self).selection_fits(len)
            }),
            final(self).is_cursed == old(self).is_cursed,
            final(self).is_priority == old(self).is_priority,
            final(self).selected_tab == old(self).selected_tab,
            final(self).state == old(self).state,
            final(self).protected_owner == old(self).protected_owner,
    {
        let len = offered_count(processes, &self.protected_owner);
        let top = limit_exec(self.vertical_scroll, len);
        self.vertical_scroll = if top + 1 < len { top + 1 } else { top };
        self.selected_row = limit_exec(self.selected_row, len);
        proof {
            lemma_limit_fits(old(self).vertical_scroll as nat, len as nat);
            lemma_limit_fits(old(self).selected_row as nat, len as nat);
        }
    }

    /// Toggles cursor mode. Entering it puts the cursor on the first visible row.
    pub fn curse(&mut self, processes: &Vec<ProcessRecord>)
        ensures
            final(self).position() == nav_step(old(self).position(), Nav::ToggleCursor, old(self).offered_len(processes@)),
            ({
                let len = old(self).offered_len(processes@);
                &&& final(self).is_cursed == !old(self).is_cursed
                &&& final(self).vertical_scroll == limit(old(self).vertical_scroll as nat, len)
                &&& final(self).selected_row == if final(self).is_cursed {
                    limit(old(self).vertical_scroll as nat, len)
                } else {
                    limit(old(self).selected_row as nat, len)
                }
                &&& final(self).selection_fits(len)
            }),
            final(self).is_priority == old(self).is_priority,
            final(self).selected_tab == old(self).selected_tab,
            final(self).state == old(self).state,
            final(self).protected_owner == old(self).protected_owner,
    {
        let len = offered_count(processes, &self.protected_owner);
        self.is_cursed = !self.is_cursed;
        self.vertical_scroll = limit_exec(self.vertical_scroll, len);
        if self.is_cursed {
            self.selected_row = self.vertical_scroll;
        } else {
            self.selected_row = limit_exec(self.selected_row, len);
        }
        proof {
            lemma_limit_fits(old(self).vertical_scroll as nat, len as nat);
            lemma_limit_fits(old(self).selected_row as nat, len as nat);
        }
    }

    /// Moves the cursor one row up in cursor mode; at the top, or outside
    /// cursor mode, it stays.
    pub fn move_cursor_up(&mut self, processes: &Vec<ProcessRecord>)
        ensures
            final(self).position() == nav_step(old(self).position(), Nav::CursorUp, old(self).offered_len(processes@)),
            ({
                let len = old(self).offered_len(processes@);
                &&& final(self).selected_row == if old(self).is_cursed {
                    step_up(old(self).selected_row as nat, len)
                } else {
                    limit(old(self).selected_row as nat, len)
                }
                &&& final(self).vertical_scroll == limit(old(self).vertical_scroll as nat, len)
                &&& final(self).selection_fits(len)
            }),
            final(self).is_cursed == old(self).is_cursed,
            final(self).is_priority == old(self).is_priority,
            final(self).selected_tab == old(self).selected_tab,
            final(self).state == old(self).state,
            final(self).protected_owner == old(self).protected_owner,
    {
        let len = offered_count(processes, &self.protected_owner);
        let row = limit_exec(self.selected_row, len);
        self.selected_row = if self.is_cursed && row > 0 { row - 1 } else { row };
        self.vertical_scroll = limit_exec(self.vertical_scroll, len);
        proof {
            lemma_limit_fits(old(self).vertical_scroll as nat, len as nat);
            lemma_limit_fits(old(self).selected_row as nat, len as nat);
        }
    }

    /// Moves the cursor one row down in cursor mode; at the last row, or
    /// outside cursor mode, it stays.
    pub fn move_cursor_down(&mut self, processes: &Vec<ProcessRecord>)
        ensures
            final(self).position() == nav_step(old(self).position(), Nav::CursorDown, old(self).offered_len(processes@)),
            ({
                let len = old(self).offered_len(processes@);
                &&& final(self).selected_row == if old(self).is_cursed {
                    step_down(old(self).selected_row as nat, len)
                } else {
                    limit(old(self).selected_row as nat, len)
                }
                &&& final(self).vertical_scroll == limit(old(self).vertical_scroll as nat, len)
                &&& final(self).selection_fits(len)
            }),
            final(self).is_cursed == old(self).is_cursed,
            final(self).is_priority == old(self).is_priority,
            final(self).selected_tab == old(self).selected_tab,
            final(self).state == old(self).state,
            final(self).protected_owner == old(self).protected_owner,
    {
        let len = offered_count(processes, &self.protected_owner);
        let row = limit_exec(self.selected_row, len);
        self.selected_row = if self.is_cursed && row + 1 < len { row + 1 } else { row };
        self.vertical_scroll = limit_exec(self.vertical_scroll, len);
        proof {
            lemma_limit_fits(old(self).vertical_scroll as nat, len as nat);
            lemma_limit_fits(old(self).selected_row as nat, len as nat);
        }
    }

    /// The record under the cursor, read from `processes` afresh: `None` when
    /// the offered list is empty or the cursor lies past its end.
    pub fn resolve_selected(&self, processes: &Vec<ProcessRecord>) -> (r: Option<ProcessRecord>)
        ensures
            ({
                let list = offered(processes@, self.protected_owner@);
                &&& r is None <==> (list.len() == 0 || self.selected_row >= list.len())
                &&& r matches Some(p) ==> p == list[self.selected_row as int]
            }),
    {
        let list = offered_processes(processes, &self.protected_owner);
        if self.selected_row < list.len() {
            Some(list[self.selected_row].duplicate())
        } else {
            None
        }
    }

    /// The first visible row, and the cursor row while in cursor mode.
    pub fn current_selection(&self) -> (r: (usize, Option<usize>))
        ensures
            r.0 == self.vertical_scroll,
            r.1 == if self.is_cursed { Some(self.selected_row) } else { None::<usize> },
    {
        if self.is_cursed {
            (self.vertical_scroll, Some(self.selected_row))
        } else {
            (self.vertical_scroll, None)
        }
    }

    /// What an action on the cursor row may come to: with no offered process
    /// under the cursor, `NothingSelected`; otherwise what `done` allows for
    /// the pid of that process.
    pub open spec fn on_cursor_row(
        self,
        processes: Seq<ProcessRecord>,
        done: spec_fn(i32) -> bool,
        r: Result<(), ControlError>,
    ) -> bool {
        let list = offered(processes, self.protected_owner@);
        if self.selected_row < list.len() {
            done(list[self.selected_row as int].pid)
        } else {
            r == Err::<(), ControlError>(ControlError::NothingSelected)
        }
    }

    fn signal_selected(&self, processes: &Vec<ProcessRecord>, signal: ControlSignal) -> (r: Result<(), ControlError>)
        ensures
            self.on_cursor_row(processes@, |pid: i32| signal_outcome(pid, r), r),
    {
        match self.resolve_selected(processes) {
            Some(p) => send_signal(p.pid, signal),
            None => Err(ControlError::NothingSelected),
        }
    }

    /// Sends the kill signal to the process under the cursor.
    pub fn kill(&mut self, processes: &Vec<ProcessRecord>) -> (r: Result<(), ControlError>)
        ensures
            *final(self) == *old(self),
            old(self).on_cursor_row(processes@, |pid: i32| signal_outcome(pid, r), r),
    {
        self.signal_selected(processes, ControlSignal::Kill)
    }

    /// Sends the termination signal to the process under the cursor.
    pub fn terminate(&mut self, processes: &Vec<ProcessRecord>) -> (r: Result<(), ControlError>)
        ensures
            *final(self) == *old(self),
            old(self).on_cursor_row(processes@, |pid: i32| signal_outcome(pid, r), r),
    {
        self.signal_selected(processes, ControlSignal::Terminate)
    }

    /// Sends the continue signal to the process under the cursor.
    pub fn resume(&mut self, processes: &Vec<ProcessRecord>) -> (r: Result<(), ControlError>)
        ensures
            *final(self) == *old(self),
            old(self).on_cursor_row(processes@, |pid: i32| signal_outcome(pid, r), r),
    {
        self.signal_selected(processes, ControlSignal::Continue)
    }

    /// Sends the stop signal to the process under the cursor.
    pub fn suspend(&mut self, processes: &Vec<ProcessRecord>) -> (r: Result<(), ControlError>)
        ensures
            *final(self) == *old(self),
            old(self).on_cursor_row(processes@, |pid: i32| signal_outcome(pid, r), r),
    {
        self.signal_selected(processes, ControlSignal::Stop)
    }

    /// Opens or closes the entry of a new priority for the cursor row.
    pub fn priority(&mut self)
        ensures
            final(self).is_priority == !old(self).is_priority,
            final(self).state == old(self).state,
            final(self).selected_tab == old(self).selected_tab,
            final(self).selected_row == old(self).selected_row,
            final(self).vertical_scroll == old(self).vertical_scroll,
            final(self).is_cursed == old(self).is_cursed,
            final(self).protected_owner == old(self).protected_owner,
    {
        self.is_priority = !self.is_priority;
    }

    /// Closes priority entry and sets the niceness of the process under the
    /// cursor to `value`. A value outside -20..=19 is refused before the
    /// process list is consulted.
    pub fn apply_priority(&mut self, processes: &Vec<ProcessRecord>, value: i32) -> (r: Result<(), ControlError>)
        ensures
            !final(self).is_priority,
            final(self).state == old(self).state,
            final(self).selected_tab == old(self).selected_tab,
            final(self).selected_row == old(self).selected_row,
            final(self).vertical_scroll == old(self).vertical_scroll,
            final(self).is_cursed == old(self).is_cursed,
            final(self).protected_owner == old(self).protected_owner,
            !nice_in_range(value) ==> r == Err::<(), ControlError>(ControlError::InvalidPriority(value)),
            nice_in_range(value) ==> old(self).on_cursor_row(
                processes@,
                |pid: i32| priority_outcome(pid, value, r),
                r,
            ),
    {
        self.is_priority = false;
        let checked = match validate_priority(value) {
            Ok(v) => v,
            Err(e) => return Err(e),
        };
        match self.resolve_selected(processes) {
            Some(p) => change_priority(p.pid, checked),
            None => Err(ControlError::NothingSelected),
        }
    }

    /// `next` shows the same tab, loop state and priority-entry flag as this state.
    pub open spec fn keeps_mode(self, next: App) -> bool {
        &&& next.selected_tab == self.selected_tab
        &&& next.state == self.state
        &&& next.is_priority == self.is_priority
        &&& next.protected_owner == self.protected_owner
    }

    /// Whether actions on the cursor row are available: in cursor mode on the process tab.
    pub open spec fn actions_enabled(self) -> bool {
        self.is_cursed && self.selected_tab == SelectedTab::Tab1
    }

    /// Carries out one command. Arrows move the cursor in cursor mode and
    /// scroll otherwise; cursor mode is toggled on the process tab only; the
    /// actions on a process, and priority entry, are taken in cursor mode on
    /// the process tab only, and are ignored elsewhere.
    pub fn handle_command(&mut self, command: Command, processes: &Vec<ProcessRecord>) -> (r: Result<(), ControlError>)
        ensures
            ({
                let len = old(self).offered_len(processes@);
                let before = *old(self);
                let after = *final(self);
                match command {
                    Command::NextTab => r is Ok && after.selected_tab == tab_after(before.selected_tab)
                        && after.position() == before.position() && after.state == before.state
                        && after.is_priority == before.is_priority,
                    Command::PreviousTab => r is Ok && after.selected_tab == tab_before(before.selected_tab)
                        && after.position() == before.position() && after.state == before.state
                        && after.is_priority == before.is_priority,
                    Command::Quit => r is Ok && after.state == AppState::Quitting
                        && after.selected_tab == before.selected_tab
                        && after.position() == before.position()
                        && after.is_priority == before.is_priority,
                    Command::ToggleCursor => r is Ok && if before.selected_tab == SelectedTab::Tab1 {
                        after.position() == nav_step(before.position(), Nav::ToggleCursor, len)
                            && before.keeps_mode(after)
                    } else {
                        after == before
                    },
                    Command::Up => r is Ok && before.keeps_mode(after) && after.position() == nav_step(
                        before.position(),
                        if before.is_cursed { Nav::CursorUp } else { Nav::ScrollUp },
                        len,
                    ),
                    Command::Down => r is Ok && before.keeps_mode(after) && after.position() == nav_step(
                        before.position(),
                        if before.is_cursed { Nav::CursorDown } else { Nav::ScrollDown },
                        len,
                    ),
                    Command::Kill | Command::Terminate | Command::Suspend | Command::Resume => after
                        == before && if before.actions_enabled() {
                        before.on_cursor_row(processes@, |pid: i32| signal_outcome(pid, r), r)
                    } else {
                        r is Ok
                    },
                    Command::TogglePriorityEntry => r is Ok && if before.actions_enabled() {
                        after.is_priority == !before.is_priority && after.position() == before.position()
                            && after.selected_tab == before.selected_tab && after.state == before.state
                    } else {
                        after == before
                    },
                    Command::SetPriority(value) => if before.actions_enabled() {
                        !after.is_priority && after.position() == before.position()
                            && after.selected_tab == before.selected_tab && after.state == before.state
                            && (!nice_in_range(value) ==> r == Err::<(), ControlError>(
                            ControlError::InvalidPriority(value),
                        )) && (nice_in_range(value) ==> before.on_cursor_row(
                            processes@,
                            |pid: i32| priority_outcome(pid, value, r),
                            r,
                        ))
                    } else {
                        after == before && r is Ok
                    },
                }
            }),
            final(self).protected_owner == old(self).protected_owner,
    {
        let on_process_tab = self.selected_tab == SelectedTab::Tab1;
        let enabled = self.is_cursed && on_process_tab;
        match command {
            Command::NextTab => {
                self.next_tab();
                Ok(())
            },
            Command::PreviousTab => {
                self.previous_tab();
                Ok(())
            },
            Command::Quit => {
                self.quit();
                Ok(())
            },
            Command::ToggleCursor => {
                if on_process_tab {
                    self.curse(processes);
                }
                Ok(())
            },
            Command::Up => {
                if self.is_cursed {
                    self.move_cursor_up(processes);
                } else {
                    self.scroll_up(processes);
                }
                Ok(())
            },
            Command::Down => {
                if self.is_cursed {
                    self.move_cursor_down(processes);
                } else {
                    self.scroll_down(processes);
                }
                Ok(())
            },
            Command::Kill => if enabled { self.kill(processes) } else { Ok(()) },
            Command::Terminate => if enabled { self.terminate(processes) } else { Ok(()) },
            Command::Suspend => if enabled { self.suspend(processes) } else { Ok(()) },
            Command::Resume => if enabled { self.resume(processes) } else { Ok(()) },
            Command::TogglePriorityEntry => {
                if enabled {
                    self.priority();
                }
                Ok(())
            },
            Command::SetPriority(value) => if enabled {
                self.apply_priority(processes, value)
            } else {
                Ok(())
            },
        }
    }

    /// The rows of the offered list of `len` rows that a table of `max_rows`
    /// rows shows: from the first visible row, as many as fit.
    pub fn visible_range(&self, len: usize, max_rows: usize) -> (r: (usize, usize))
        ensures
            r.0 == limit(self.vertical_scroll as nat, len as nat),
            r.1 == if r.0 + max_rows < len { r.0 + max_rows } else { len as int },
            r.0 <= r.1 <= len,
    {
        let start = limit_exec(self.vertical_scroll, len);
        let end = if max_rows < len - start { start + max_rows } else { len };
        (start, end)
    }

    /// The key hints that fit the current mode.
    pub fn footer_hint(&self) -> (r: FooterHint)
        ensures
            r == if self.selected_tab != SelectedTab::Tab1 {
                FooterHint::Navigation
            } else if !self.is_cursed {
                FooterHint::ProcessTab
            } else if self.is_priority {
                FooterHint::PriorityEntry
            } else {
                FooterHint::CursorActions
            },
    {
        if self.selected_tab != SelectedTab::Tab1 {
            FooterHint::Navigation
        } else if !self.is_cursed {
            FooterHint::ProcessTab
        } else if self.is_priority {
            FooterHint::PriorityEntry
        } else {
            FooterHint::CursorActions
        }
    }

    /// Shows the next tab.
    pub fn next_tab(&mut self)
        ensures
            final(self).selected_tab == tab_after(old(self).selected_tab),
            final(self).selected_row == old(self).selected_row,
            final(self).vertical_scroll == old(self).vertical_scroll,
            final(self).is_cursed == old(self).is_cursed,
            final(self).is_priority == old(self).is_priority,
            final(self).state == old(self).state,
            final(self).protected_owner == old(self).protected_owner,
    {
        self.selected_tab = self.selected_tab.next();
    }

    /// Shows the previous tab.
    pub fn previous_tab(&mut self)
        ensures
            final(self).selected_tab == tab_before(old(self).selected_tab),
            final(self).selected_row == old(self).selected_row,
            final(self).vertical_scroll == old(self).vertical_scroll,
            final(self).is_cursed == old(self).is_cursed,
            final(self).is_priority == old(self).is_priority,
            final(self).state == old(self).state,
            final(self).protected_owner == old(self).protected_owner,
    {
        self.selected_tab = self.selected_tab.previous();
    }

    /// Asks the interactive loop to stop.
    pub fn quit(&mut self)
        ensures
            final(self).state == AppState::Quitting,
            final(self).selected_tab == old(self).selected_tab,
            final(self).selected_row == old(self).selected_row,
            final(self).vertical_scroll == old(self).vertical_scroll,
            final(self).is_cursed == old(self).is_cursed,
            final(self).is_priority == old(self).is_priority,
            final(self).protected_owner == old(self).protected_owner,
    {
        self.state = AppState::Quitting;
    }
}

} // verus!
