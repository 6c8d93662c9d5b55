use vstd::prelude::*;

use crate::timeframe::ChartTimeframe;

verus! {

/// Number of samples a price series holds per day, given that the series
/// spans seven days evenly; at least one.
pub open spec fn samples_per_day(len: nat) -> nat {
    if len / 7 >= 1 {
        len / 7
    } else {
        1
    }
}

/// Number of samples a price series holds per hour, given that the series
/// spans 168 hours evenly; at least one.
pub open spec fn samples_per_hour(len: nat) -> nat {
    if len / 168 >= 1 {
        len / 168
    } else {
        1
    }
}

/// How many of the most recent samples the chart shows for a timeframe,
/// before limiting to what the series holds. The one-hour view shows four
/// hours' worth of samples, so that the shortest view still shows a trend.
pub open spec fn wanted_samples(len: nat, t: ChartTimeframe) -> nat {
    match t {
        ChartTimeframe::OneHour => 4 * samples_per_hour(len),
        ChartTimeframe::TwentyFourHours => samples_per_day(len),
        ChartTimeframe::SevenDays => len,
    }
}

/// The chart window of a series: its last `wanted_samples` elements (all of
/// them, where it holds fewer), oldest first.
pub open spec fn window_of<T>(s: Seq<T>, t: ChartTimeframe) -> Seq<T> {
    let n = wanted_samples(s.len(), t);
    if n >= s.len() {
        s
    } else {
        s.subrange(s.len() - n, s.len() as int)
    }
}

/// Number of most recent samples to show for a series of `len` samples.
pub fn samples_to_show(len: usize, timeframe: ChartTimeframe) -> (r: usize)
    ensures
        r as nat == if wanted_samples(len as nat, timeframe) <= len as nat {
            wanted_samples(len as nat, timeframe)
        } else {
            len as nat
        },
{
    let n: usize = match timeframe {
        ChartTimeframe::OneHour => {
            let per_hour: usize = if len / 168 >= 1 { len / 168 } else { 1 };
            if per_hour <= len / 4 {
                4 * per_hour
            } else {
                len
            }
        },
        ChartTimeframe::TwentyFourHours => if len / 7 >= 1 { len / 7 } else { 1 },
        ChartTimeframe::SevenDays => len,
    };
    if n <= len {
        n
    } else {
        len
    }
}

/// The part of a price series (oldest first) that the chart shows for a
/// timeframe. The series itself is left as it was.
pub fn chart_window<T: Copy>(prices: &Vec<T>, timeframe: ChartTimeframe) -> (r: Vec<T>)
    ensures
        r@ == window_of(prices@, timeframe),
{
    let len = prices.len();
    let n = samples_to_show(len, timeframe);
    let start = len - n;
    let mut out: Vec<T> = Vec::new();
    let mut i: usize = start;
    while i < len
        invariant
            start <= i <= len,
            len == prices@.len(),
            out@ == prices@.subrange(start as int, i as int),
        decreases len - i,
    {
        out.push(prices[i]);
        i = i + 1;
    }
    assert(prices@.subrange(0, len as int) == prices@);
    out
}

/// On a week of hourly samples the day view is the last 24 samples, the
/// hour view the last 4, and the week view the whole series.
pub proof fn lemma_windows_of_hourly_week<T>(s: Seq<T>)
    requires
        s.len() == 168,
    ensures
        window_of(s, ChartTimeframe::TwentyFourHours) == s.subrange(144, 168),
        window_of(s, ChartTimeframe::OneHour) == s.subrange(164, 168),
        window_of(s, ChartTimeframe::SevenDays) == s,
{
}

} // verus!
