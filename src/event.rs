use vstd::prelude::*;

use crate::app::{chart_for, navigated, same_data, timeframe_cycled, App};
use crate::nav::{in_view, nav_step, NavOp};
use crate::refresh::{elapsed, refresh_begun, refresh_due};

verus! {

/// A key press, as the dashboard understands it.
#[derive(Debug, Clone, Copy, PartialEq, Eq, Structural)]
pub enum Key {
    Up,
    Down,
    PageUp,
    PageDown,
    Top,
    Bottom,
    CycleTimeframe,
    Refresh,
    Quit,
    Other,
}

/// What the event loop must do after a key press.
#[derive(Debug, Clone, Copy, PartialEq, Eq, Structural)]
pub enum Action {
    /// Nothing more: render and wait for the next event.
    Continue,
    /// A fetch was begun: perform it and hand its outcome to `complete_refresh`.
    Fetch,
    /// Leave the loop.
    Quit,
}

/// What the footer says about the data's freshness.
#[derive(Debug, Clone, Copy, PartialEq, Eq, Structural)]
pub enum UpdateStatus {
    Loading,
    /// Whole seconds since the last successful fetch.
    UpdatedSecondsAgo(u64),
    NotUpdated,
}

/// The navigation request a key stands for, if any.
pub open spec fn key_nav(key: Key) -> Option<NavOp> {
    match key {
        Key::Up => Some(NavOp::Up),
        Key::Down => Some(NavOp::Down),
        Key::PageUp => Some(NavOp::PageUp),
        Key::PageDown => Some(NavOp::PageDown),
        Key::Top => Some(NavOp::Top),
        Key::Bottom => Some(NavOp::Bottom),
        _ => None,
    }
}

/// `b` and `r` are the state and the action after key `key` in state `a`,
/// with a viewport of `rows` rows.
pub open spec fn key_handled<F>(a: App<F>, b: App<F>, key: Key, rows: usize, r: Action) -> bool {
    match key {
        Key::Quit => r == Action::Quit && b == (App { should_quit: true, ..a }),
        Key::CycleTimeframe => r == Action::Continue && timeframe_cycled(a, b),
        Key::Refresh => if a.loading {
            r == Action::Continue && b == a
        } else {
            r == Action::Fetch && refresh_begun(a, b)
        },
        Key::Other => r == Action::Continue && b == a,
        _ => {
            let (sel, scroll) = nav_step(
                a.selected_index as nat,
                a.scroll_offset as nat,
                a.coins@.len(),
                key_nav(key)->0,
                rows as nat,
            );
            &&& r == Action::Continue
            &&& same_data(a, b)
            &&& b.selected_index == sel
            &&& b.scroll_offset == scroll
            &&& b.chart_data@ == chart_for(b.coins@, b.selected_index as int, b.chart_timeframe)
            &&& in_view(b.selected_index as nat, b.scroll_offset as nat, rows as nat)
        },
    }
}

impl<F: Copy> App<F> {
    /// Handles one key press with a viewport of `visible_rows` rows. When a
    /// navigation key moved the selection, the chart is derived again.
    pub fn handle_key(&mut self, key: Key, visible_rows: usize) -> (r: Action)
        requires
            old(self).wf(),
        ensures
            key_handled(*old(self), *final(self), key, visible_rows, r),
            final(self).wf(),
    {
        let previous = self.selected_index;
        let action = self.dispatch_key(key, visible_rows);
        if self.selected_index != previous {
            self.update_chart_data();
        }
        action
    }

    /// Performs what a key asks for, without deriving the chart again after
    /// a move of the selection.
    fn dispatch_key(&mut self, key: Key, visible_rows: usize) -> (r: Action)
        requires
            old(self).wf(),
        ensures
            key_nav(key) is None ==> key_handled(*old(self), *final(self), key, visible_rows, r),
            key_nav(key) is None ==> final(self).selected_index == old(self).selected_index,
            key_nav(key) matches Some(op) ==> r == Action::Continue && navigated(
                *old(self),
                *final(self),
                op,
                visible_rows,
            ),
            final(self).nav_wf(),
            final(self).selected_index == old(self).selected_index ==> final(self).wf(),
    {
        match key {
            Key::Quit => {
                self.should_quit = true;
                Action::Quit
            },
            Key::Up => {
                self.move_selection_up(visible_rows);
                Action::Continue
            },
            Key::Down => {
                self.move_selection_down(visible_rows);
                Action::Continue
            },
            Key::PageUp => {
                self.page_up(visible_rows);
                Action::Continue
            },
            Key::PageDown => {
                self.page_down(visible_rows);
                Action::Continue
            },
            Key::Top => {
                self.go_to_top();
                Action::Continue
            },
            Key::Bottom => {
                self.go_to_bottom(visible_rows);
                Action::Continue
            },
            Key::CycleTimeframe => {
                self.cycle_timeframe();
                Action::Continue
            },
            Key::Refresh => {
                if self.begin_refresh() {
                    Action::Fetch
                } else {
                    Action::Continue
                }
            },
            Key::Other => Action::Continue,
        }
    }

    /// Begins an automatic refresh when one is due at `now`; returns whether
    /// it did, in which case the caller performs the fetch.
    pub fn poll_auto_refresh(&mut self, now: u64, interval: u64) -> (r: bool)
        requires
            old(self).wf(),
        ensures
            r == refresh_due(*old(self), now, interval),
            r ==> refresh_begun(*old(self), *final(self)),
            !r ==> *final(self) == *old(self),
            final(self).wf(),
    {
        if self.is_auto_refresh_due(now, interval) {
            self.begin_refresh()
        } else {
            false
        }
    }

    /// The freshness of the data at `now`.
    pub fn update_status(&self, now: u64) -> (r: UpdateStatus)
        ensures
            r == if self.loading {
                UpdateStatus::Loading
            } else if let Some(t) = self.last_update {
                UpdateStatus::UpdatedSecondsAgo((elapsed(t, now) / 1000) as u64)
            } else {
                UpdateStatus::NotUpdated
            },
    {
        if self.loading {
            UpdateStatus::Loading
        } else {
            match self.last_update {
                Some(t) => {
                    let since: u64 = if now >= t {
                        now - t
                    } else {
                        0
                    };
                    UpdateStatus::UpdatedSecondsAgo(since / 1000)
                },
                None => UpdateStatus::NotUpdated,
            }
        }
    }

    /// The message the chart area shows in place of an empty chart: loading
    /// while a fetch is in flight, else that there is no data. None when
    /// there are samples to draw.
    pub fn chart_placeholder(&self) -> (r: Option<&'static str>)
        ensures
            self.chart_data@.len() > 0 ==> r is None,
            self.chart_data@.len() == 0 && self.loading ==> (r matches Some(m)
                && m@ == "Loading chart data..."@),
            self.chart_data@.len() == 0 && !self.loading ==> (r matches Some(m)
                && m@ == "No chart data available"@),
    {
        if self.chart_data.len() > 0 {
            None
        } else if self.loading {
            Some("Loading chart data...")
        } else {
            Some("No chart data available")
        }
    }
}

/// Rows of the instrument list that fit in a terminal `terminal_height` rows
/// high, after the chart (a fifth of the height) and ten rows of header,
/// footer and borders; zero when nothing fits.
pub fn viewport_rows(terminal_height: u16) -> (r: usize)
    ensures
        r as int == if terminal_height - terminal_height / 5 - 10 >= 0 {
            terminal_height - terminal_height / 5 - 10
        } else {
            0int
        },
{
    let total = terminal_height as usize;
    let reserved = total / 5 + 10;
    if total >= reserved {
        total - reserved
    } else {
        0
    }
}

} // verus!
