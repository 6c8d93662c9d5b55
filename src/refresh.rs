use vstd::prelude::*;

use crate::app::{reconcile, App};
use crate::market::CoinMarket;
use crate::nav::{last_index, reconciled_offset};

verus! {

/// Milliseconds from `since` to `now`; zero when `now` comes first.
pub open spec fn elapsed(since: u64, now: u64) -> nat {
    if now >= since {
        (now - since) as nat
    } else {
        0
    }
}

/// An automatic refresh is due when no fetch is in flight and `interval`
/// has passed since the last refresh completed.
pub open spec fn refresh_due<F>(a: App<F>, now: u64, interval: u64) -> bool {
    !a.loading && elapsed(a.last_refresh, now) >= interval
}

/// `b` is `a` with a fetch begun.
pub open spec fn refresh_begun<F>(a: App<F>, b: App<F>) -> bool {
    &&& b.loading
    &&& b.coins@ == a.coins@
    &&& b.selected_index == a.selected_index
    &&& b.scroll_offset == a.scroll_offset
    &&& b.chart_timeframe == a.chart_timeframe
    &&& b.chart_data@ == a.chart_data@
    &&& b.last_update == a.last_update
    &&& b.last_refresh == a.last_refresh
    &&& b.error_message == a.error_message
    &&& b.should_quit == a.should_quit
    &&& b.vs_currency@ == a.vs_currency@
}

/// `b` is `a` after a fetch that ended at `now` with `result`, the viewport
/// last known to hold `rows` rows. A success replaces the list, records the
/// time and clears the error; the selection is clamped into the new list. A
/// failure keeps the list and records the error. Either way the fetch is
/// over and the refresh interval starts again at `now`.
pub open spec fn refresh_completed<F>(
    a: App<F>,
    b: App<F>,
    result: Result<Vec<CoinMarket<F>>, String>,
    now: u64,
    rows: usize,
) -> bool {
    &&& match result {
        Ok(list) => {
            &&& b.coins@ == list@
            &&& b.last_update == Some(now)
            &&& b.error_message is None
            &&& b.selected_index == if a.selected_index <= last_index(list@.len()) {
                a.selected_index as nat
            } else {
                last_index(list@.len())
            }
            &&& b.scroll_offset == reconciled_offset(
                b.selected_index as nat,
                a.scroll_offset as nat,
                rows as nat,
            )
        },
        Err(e) => {
            &&& b.coins@ == a.coins@
            &&& b.last_update == a.last_update
            &&& b.error_message == Some(e)
            &&& b.selected_index == a.selected_index
            &&& b.scroll_offset == a.scroll_offset
        },
    }
    &&& !b.loading
    &&& b.last_refresh == now
    &&& b.chart_timeframe == a.chart_timeframe
    &&& b.should_quit == a.should_quit
    &&& b.vs_currency@ == a.vs_currency@
    &&& b.wf()
}

impl<F: Copy> App<F> {
    /// Whether an automatic refresh should start at `now`.
    pub fn is_auto_refresh_due(&self, now: u64, interval: u64) -> (r: bool)
        ensures
            r == refresh_due(*self, now, interval),
    {
        let since: u64 = if now >= self.last_refresh {
            now - self.last_refresh
        } else {
            0
        };
        !self.loading && since >= interval
    }

    /// Marks a fetch as in flight. While one already is, this does nothing
    /// and returns false: the caller must then start no fetch.
    pub fn begin_refresh(&mut self) -> (r: bool)
        ensures
            r == !old(self).loading,
            old(self).loading ==> *final(self) == *old(self),
            !old(self).loading ==> refresh_begun(*old(self), *final(self)),
            old(self).wf() ==> final(self).wf(),
    {
        if self.loading {
            false
        } else {
            self.loading = true;
            true
        }
    }

    /// Applies the outcome of a fetch that ended at `now`.
    pub fn complete_refresh(
        &mut self,
        result: Result<Vec<CoinMarket<F>>, String>,
        now: u64,
        visible_rows: usize,
    )
        requires
            old(self).wf(),
        ensures
            refresh_completed(*old(self), *final(self), result, now, visible_rows),
    {
        match result {
            Ok(list) => {
                let last: usize = if list.len() == 0 {
                    0
                } else {
                    list.len() - 1
                };
                let index = if self.selected_index <= last {
                    self.selected_index
                } else {
                    last
                };
                self.coins = list;
                self.selected_index = index;
                self.scroll_offset = reconcile(index, self.scroll_offset, visible_rows);
                self.last_update = Some(now);
                self.error_message = None;
                self.update_chart_data();
            },
            Err(e) => {
                self.error_message = Some(e);
            },
        }
        self.loading = false;
        self.last_refresh = now;
    }
}

/// Right after a refresh completes no automatic refresh is due; once the
/// interval has passed, with no fetch begun since, one is.
pub proof fn lemma_refresh_due_after_interval<F>(
    a: App<F>,
    b: App<F>,
    result: Result<Vec<CoinMarket<F>>, String>,
    now: u64,
    rows: usize,
    interval: u64,
)
    requires
        refresh_completed(a, b, result, now, rows),
        interval > 0,
    ensures
        !refresh_due(b, now, interval),
        forall|t: u64| t >= now + interval ==> refresh_due(b, t, interval),
{
}

/// A failed fetch starts no immediate retry: no automatic refresh is due
/// right after it, the error is recorded and the list is kept.
pub proof fn lemma_failed_fetch_no_retry<F>(
    a: App<F>,
    b: App<F>,
    message: String,
    now: u64,
    rows: usize,
    interval: u64,
)
    requires
        refresh_completed(a, b, Err(message), now, rows),
        interval > 0,
    ensures
        !refresh_due(b, now, interval),
        b.error_message == Some(message),
        b.coins@ == a.coins@,
{
}

} // verus!
