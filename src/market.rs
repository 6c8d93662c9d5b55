use vstd::prelude::*;

use crate::timeframe::ChartTimeframe;

verus! {

/// Recent price samples of an instrument, oldest first, spread evenly over
/// seven days. `F` is the number type the provider's prices come in.
#[derive(Debug, Clone)]
pub struct SparklineData<F> {
    pub price: Vec<F>,
}

/// One market instrument as the provider reports it. Every number is
/// optional: the provider may leave any of them out.
#[derive(Debug, Clone)]
pub struct CoinMarket<F> {
    pub symbol: String,
    pub name: String,
    pub current_price: Option<F>,
    pub market_cap: Option<F>,
    pub market_cap_rank: Option<u32>,
    pub total_volume: Option<F>,
    pub high_24h: Option<F>,
    pub low_24h: Option<F>,
    pub price_change_percentage_24h: Option<F>,
    pub price_change_percentage_1h_in_currency: Option<F>,
    pub price_change_percentage_24h_in_currency: Option<F>,
    pub price_change_percentage_7d_in_currency: Option<F>,
    pub price_change_percentage_14d_in_currency: Option<F>,
    pub price_change_percentage_30d_in_currency: Option<F>,
    pub price_change_percentage_60d_in_currency: Option<F>,
    pub price_change_percentage_200d_in_currency: Option<F>,
    pub price_change_percentage_1y_in_currency: Option<F>,
    pub circulating_supply: Option<F>,
    pub total_supply: Option<F>,
    pub max_supply: Option<F>,
    pub ath: Option<F>,
    pub ath_date: Option<String>,
    pub atl: Option<F>,
    pub atl_date: Option<String>,
    pub last_updated: Option<String>,
    pub sparkline_in_7d: Option<SparklineData<F>>,
}

impl<F: Copy> CoinMarket<F> {
    /// The price change, in percent, over the horizon of a chart timeframe.
    pub fn change_for(&self, timeframe: ChartTimeframe) -> (r: Option<F>)
        ensures
            r == match timeframe {
                ChartTimeframe::OneHour => self.price_change_percentage_1h_in_currency,
                ChartTimeframe::TwentyFourHours => self.price_change_percentage_24h_in_currency,
                ChartTimeframe::SevenDays => self.price_change_percentage_7d_in_currency,
            },
    {
        match timeframe {
            ChartTimeframe::OneHour => self.price_change_percentage_1h_in_currency,
            ChartTimeframe::TwentyFourHours => self.price_change_percentage_24h_in_currency,
            ChartTimeframe::SevenDays => self.price_change_percentage_7d_in_currency,
        }
    }
}

} // verus!
