use vstd::prelude::*;

use crate::chart::{chart_window, window_of};
use crate::market::CoinMarket;
use crate::nav::{in_view, last_index, nav_step, reconciled_offset, NavOp};
use crate::timeframe::{lemma_next_timeframe_period, next_timeframe, ChartTimeframe};

verus! {

/// The whole mutable state of the dashboard. Times are milliseconds on a
/// monotonic clock that starts with the session.
pub struct App<F> {
    /// The ranked instrument list, replaced whole on each successful refresh.
    pub coins: Vec<CoinMarket<F>>,
    pub selected_index: usize,
    /// Index of the first list row shown in the viewport.
    pub scroll_offset: usize,
    pub chart_timeframe: ChartTimeframe,
    /// The samples the chart shows; always derived from the selected
    /// instrument and the timeframe.
    pub chart_data: Vec<F>,
    /// When the last successful fetch completed.
    pub last_update: Option<u64>,
    /// When the last refresh (successful or not) completed; the automatic
    /// refresh interval counts from here.
    pub last_refresh: u64,
    /// True exactly while a fetch is in flight.
    pub loading: bool,
    /// Description of the most recent failed fetch, until the next success.
    pub error_message: Option<String>,
    pub should_quit: bool,
    /// The currency all prices are quoted in.
    pub vs_currency: String,
}

/// The chart samples for the instrument at `sel` under timeframe `t`: empty
/// when there is no such instrument or it has no price series.
pub open spec fn chart_for<F>(coins: Seq<CoinMarket<F>>, sel: int, t: ChartTimeframe) -> Seq<F> {
    if 0 <= sel < coins.len() && coins[sel].sparkline_in_7d is Some {
        window_of(coins[sel].sparkline_in_7d->0.price@, t)
    } else {
        Seq::empty()
    }
}

/// `b` holds the same data as `a` but for selection, scrolling and chart.
pub open spec fn same_data<F>(a: App<F>, b: App<F>) -> bool {
    &&& b.coins@ == a.coins@
    &&& b.chart_timeframe == a.chart_timeframe
    &&& b.last_update == a.last_update
    &&& b.last_refresh == a.last_refresh
    &&& b.loading == a.loading
    &&& b.error_message == a.error_message
    &&& b.should_quit == a.should_quit
    &&& b.vs_currency@ == a.vs_currency@
}

/// `b` is `a` after the navigation request `op` with a viewport of `rows` rows:
/// only the selection and the scroll offset change, the chart included.
pub open spec fn navigated<F>(a: App<F>, b: App<F>, op: NavOp, rows: usize) -> bool {
    let (s, o) = nav_step(
        a.selected_index as nat,
        a.scroll_offset as nat,
        a.coins@.len(),
        op,
        rows as nat,
    );
    &&& same_data(a, b)
    &&& b.selected_index == s
    &&& b.scroll_offset == o
    &&& b.chart_data@ == a.chart_data@
    &&& b.nav_wf()
    &&& in_view(b.selected_index as nat, b.scroll_offset as nat, rows as nat)
}

/// Scroll offset after reconciling `scroll` with the selection `sel`.
pub(crate) fn reconcile(sel: usize, scroll: usize, visible_rows: usize) -> (r: usize)
    ensures
        r == reconciled_offset(sel as nat, scroll as nat, visible_rows as nat),
        in_view(sel as nat, r as nat, visible_rows as nat),
{
    let rows: usize = if visible_rows == 0 { 1 } else { visible_rows };
    if sel >= scroll && sel - scroll >= rows {
        sel - rows + 1
    } else if sel < scroll {
        sel
    } else {
        scroll
    }
}

/// `b` is `a` with the chart samples derived anew, and nothing else changed.
pub open spec fn chart_rederived<F>(a: App<F>, b: App<F>) -> bool {
    &&& same_data(a, b)
    &&& b.selected_index == a.selected_index
    &&& b.scroll_offset == a.scroll_offset
    &&& b.chart_data@ == chart_for(a.coins@, a.selected_index as int, a.chart_timeframe)
}

/// `b` is `a` with the timeframe advanced and the chart derived anew.
pub open spec fn timeframe_cycled<F>(a: App<F>, b: App<F>) -> bool {
    &&& b.wf()
    &&& b.chart_timeframe == next_timeframe(a.chart_timeframe)
    &&& b.coins@ == a.coins@
    &&& b.selected_index == a.selected_index
    &&& b.scroll_offset == a.scroll_offset
    &&& b.last_update == a.last_update
    &&& b.last_refresh == a.last_refresh
    &&& b.loading == a.loading
    &&& b.error_message == a.error_message
    &&& b.should_quit == a.should_quit
    &&& b.vs_currency@ == a.vs_currency@
}

impl<F> App<F> {
    /// The navigation invariant: the selection is a valid index (zero for
    /// an empty list) and the viewport starts at or above it.
    pub open spec fn nav_wf(&self) -> bool {
        &&& self.coins@.len() == 0 ==> self.selected_index == 0
        &&& self.coins@.len() > 0 ==> self.selected_index < self.coins@.len()
        &&& self.scroll_offset <= self.selected_index
    }

    /// The chart shows the window of the selected instrument.
    pub open spec fn chart_synced(&self) -> bool {
        self.chart_data@ == chart_for(self.coins@, self.selected_index as int, self.chart_timeframe)
    }

    /// The state invariant: navigation invariant and a chart in step with
    /// the selection and the timeframe.
    pub open spec fn wf(&self) -> bool {
        self.nav_wf() && self.chart_synced()
    }
}

impl<F: Copy> App<F> {
    pub fn new() -> (r: Self)
        ensures
            r.wf(),
            r.coins@.len() == 0,
            r.selected_index == 0,
            r.scroll_offset == 0,
            r.chart_timeframe == ChartTimeframe::TwentyFourHours,
            r.last_update is None,
            r.last_refresh == 0,
            r.loading,
            r.error_message is None,
            !r.should_quit,
            r.vs_currency@ == "usd"@,
    {
        App {
            coins: Vec::new(),
            selected_index: 0,
            scroll_offset: 0,
            chart_timeframe: ChartTimeframe::TwentyFourHours,
            chart_data: Vec::new(),
            last_update: None,
            last_refresh: 0,
            loading: true,
            error_message: None,
            should_quit: false,
            vs_currency: "usd".to_owned(),
        }
    }

    /// The instrument under the selection, if the list has one there.
    pub fn selected_coin(&self) -> (r: Option<&CoinMarket<F>>)
        ensures
            r matches Some(c) ==> self.selected_index < self.coins@.len()
                && *c == self.coins@[self.selected_index as int],
            r is None ==> self.selected_index >= self.coins@.len(),
    {
        if self.selected_index < self.coins.len() {
            Some(&self.coins[self.selected_index])
        } else {
            None
        }
    }

    /// The chart samples for the current selection and timeframe.
    fn selected_window(&self) -> (r: Vec<F>)
        ensures
            r@ == chart_for(self.coins@, self.selected_index as int, self.chart_timeframe),
    {
        if self.selected_index < self.coins.len() {
            match &self.coins[self.selected_index].sparkline_in_7d {
                Some(sparkline) => chart_window(&sparkline.price, self.chart_timeframe),
                None => Vec::new(),
            }
        } else {
            Vec::new()
        }
    }

    /// Derives the chart samples again from the selected instrument and the
    /// timeframe. Nothing else changes.
    pub fn update_chart_data(&mut self)
        ensures
            chart_rederived(*old(self), *final(self)),
    {
        let data = self.selected_window();
        self.chart_data = data;
    }

    /// Scroll reconciliation: moves the viewport as little as needed to show
    /// the selected row.
    pub fn update_scroll_offset(&mut self, visible_rows: usize)
        ensures
            same_data(*old(self), *final(self)),
            old(self).nav_wf() ==> final(self).nav_wf(),
            old(self).wf() ==> final(self).wf(),
            final(self).selected_index == old(self).selected_index,
            final(self).chart_data@ == old(self).chart_data@,
            final(self).scroll_offset == reconciled_offset(
                old(self).selected_index as nat,
                old(self).scroll_offset as nat,
                visible_rows as nat,
            ),
            in_view(
                final(self).selected_index as nat,
                final(self).scroll_offset as nat,
                visible_rows as nat,
            ),
    {
        self.scroll_offset = reconcile(self.selected_index, self.scroll_offset, visible_rows);
    }

    /// Sets the selection and reconciles scrolling; nothing else changes.
    fn select(&mut self, index: usize, visible_rows: usize)
        requires
            old(self).nav_wf(),
            index <= last_index(old(self).coins@.len()),
        ensures
            same_data(*old(self), *final(self)),
            final(self).nav_wf(),
            final(self).chart_data@ == old(self).chart_data@,
            final(self).selected_index == index,
            final(self).scroll_offset == reconciled_offset(
                index as nat,
                old(self).scroll_offset as nat,
                visible_rows as nat,
            ),
    {
        self.scroll_offset = reconcile(index, self.scroll_offset, visible_rows);
        self.selected_index = index;
    }

    pub fn move_selection_up(&mut self, visible_rows: usize)
        requires
            old(self).nav_wf(),
        ensures
            navigated(*old(self), *final(self), NavOp::Up, visible_rows),
    {
        let index = if self.selected_index > 0 {
            self.selected_index - 1
        } else {
            self.selected_index
        };
        self.select(index, visible_rows);
    }

    pub fn move_selection_down(&mut self, visible_rows: usize)
        requires
            old(self).nav_wf(),
        ensures
            navigated(*old(self), *final(self), NavOp::Down, visible_rows),
    {
        let index = if self.selected_index < self.last_index() {
            self.selected_index + 1
        } else {
            self.selected_index
        };
        self.select(index, visible_rows);
    }

    /// Moves the selection up by one viewport, stopping at the first row.
    pub fn page_up(&mut self, visible_rows: usize)
        requires
            old(self).nav_wf(),
        ensures
            navigated(*old(self), *final(self), NavOp::PageUp, visible_rows),
    {
        let rows: usize = if visible_rows == 0 { 1 } else { visible_rows };
        let index = if self.selected_index >= rows {
            self.selected_index - rows
        } else {
            0
        };
        self.select(index, visible_rows);
    }

    /// Moves the selection down by one viewport, stopping at the last row.
    pub fn page_down(&mut self, visible_rows: usize)
        requires
            old(self).nav_wf(),
        ensures
            navigated(*old(self), *final(self), NavOp::PageDown, visible_rows),
    {
        let rows: usize = if visible_rows == 0 { 1 } else { visible_rows };
        let last = self.last_index();
        let index = if last - self.selected_index >= rows {
            self.selected_index + rows
        } else {
            last
        };
        self.select(index, visible_rows);
    }

    pub fn go_to_top(&mut self)
        requires
            old(self).nav_wf(),
        ensures
            final(self).selected_index == 0,
            final(self).scroll_offset == 0,
            same_data(*old(self), *final(self)),
            final(self).chart_data@ == old(self).chart_data@,
            forall|rows: usize| navigated(*old(self), *final(self), NavOp::Top, rows),
    {
        self.select(0, 1);
        self.scroll_offset = 0;
    }

    pub fn go_to_bottom(&mut self, visible_rows: usize)
        requires
            old(self).nav_wf(),
        ensures
            navigated(*old(self), *final(self), NavOp::Bottom, visible_rows),
    {
        let last = self.last_index();
        self.select(last, visible_rows);
    }

    fn last_index(&self) -> (r: usize)
        ensures
            r == last_index(self.coins@.len()),
    {
        if self.coins.len() == 0 {
            0
        } else {
            self.coins.len() - 1
        }
    }

    /// Advances the chart timeframe to the next one in the cycle and derives
    /// the chart again.
    pub fn cycle_timeframe(&mut self)
        requires
            old(self).wf(),
        ensures
            timeframe_cycled(*old(self), *final(self)),
    {
        self.chart_timeframe = self.chart_timeframe.next();
        self.update_chart_data();
    }
}

impl<F: Copy> Default for App<F> {
    fn default() -> (r: Self)
        ensures
            r.wf(),
            r.coins@.len() == 0,
            r.selected_index == 0,
            r.scroll_offset == 0,
            r.chart_timeframe == ChartTimeframe::TwentyFourHours,
            r.last_update is None,
            r.last_refresh == 0,
            r.loading,
            r.error_message is None,
            !r.should_quit,
            r.vs_currency@ == "usd"@,
    {
        Self::new()
    }
}

/// Deriving the chart is idempotent: doing it twice in a row gives the same
/// samples as doing it once, and it changes nothing else; on a consistent
/// state it changes nothing at all.
pub proof fn lemma_chart_derivation_idempotent<F>(a: App<F>, b: App<F>, c: App<F>)
    requires
        chart_rederived(a, b),
        chart_rederived(b, c),
    ensures
        c.chart_data@ == b.chart_data@,
        same_data(a, c),
        c.selected_index == a.selected_index,
        c.scroll_offset == a.scroll_offset,
        a.wf() ==> b.chart_data@ == a.chart_data@,
{
}

/// Cycling the timeframe three times returns to the timeframe, and the
/// chart samples, that the state started with.
pub proof fn lemma_cycle_timeframe_three_times<F>(a: App<F>, b: App<F>, c: App<F>, d: App<F>)
    requires
        a.wf(),
        timeframe_cycled(a, b),
        timeframe_cycled(b, c),
        timeframe_cycled(c, d),
    ensures
        d.chart_timeframe == a.chart_timeframe,
        d.chart_data@ == a.chart_data@,
        d.selected_index == a.selected_index,
        d.scroll_offset == a.scroll_offset,
{
    lemma_next_timeframe_period(a.chart_timeframe);
}

} // verus!
