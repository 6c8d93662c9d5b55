use vstd::prelude::*;

verus! {

/// The horizon of the price chart.
#[derive(Debug, Clone, Copy, PartialEq, Eq, Structural)]
pub enum ChartTimeframe {
    OneHour,
    TwentyFourHours,
    SevenDays,
}

/// The timeframe that follows `t` in the cycle OneHour, TwentyFourHours, SevenDays.
pub open spec fn next_timeframe(t: ChartTimeframe) -> ChartTimeframe {
    match t {
        ChartTimeframe::OneHour => ChartTimeframe::TwentyFourHours,
        ChartTimeframe::TwentyFourHours => ChartTimeframe::SevenDays,
        ChartTimeframe::SevenDays => ChartTimeframe::OneHour,
    }
}

/// The short text shown for a timeframe.
pub open spec fn timeframe_label(t: ChartTimeframe) -> Seq<char> {
    match t {
        ChartTimeframe::OneHour => "1H"@,
        ChartTimeframe::TwentyFourHours => "24H"@,
        ChartTimeframe::SevenDays => "7D"@,
    }
}

impl ChartTimeframe {
    pub fn label(&self) -> (r: &'static str)
        ensures
            r@ == timeframe_label(*self),
    {
        match self {
            ChartTimeframe::OneHour => "1H",
            ChartTimeframe::TwentyFourHours => "24H",
            ChartTimeframe::SevenDays => "7D",
        }
    }

    pub fn next(&self) -> (r: ChartTimeframe)
        ensures
            r == next_timeframe(*self),
    {
        match self {
            ChartTimeframe::OneHour => ChartTimeframe::TwentyFourHours,
            ChartTimeframe::TwentyFourHours => ChartTimeframe::SevenDays,
            ChartTimeframe::SevenDays => ChartTimeframe::OneHour,
        }
    }
}

/// Advancing the timeframe three times returns to where it started.
pub proof fn lemma_next_timeframe_period(t: ChartTimeframe)
    ensures
        next_timeframe(next_timeframe(next_timeframe(t))) == t,
{
}

} // verus!
