use coins::app::App;
use coins::chart::{chart_window, samples_to_show};
use coins::event::{viewport_rows, Action, Key, UpdateStatus};
use coins::market::{CoinMarket, SparklineData};
use coins::timeframe::ChartTimeframe;

fn coin(rank: u32, series: Option<Vec<f64>>) -> CoinMarket<f64> {
    CoinMarket {
        symbol: format!("c{}", rank),
        name: format!("Coin {}", rank),
        current_price: Some(rank as f64),
        market_cap: None,
        market_cap_rank: Some(rank),
        total_volume: None,
        high_24h: None,
        low_24h: None,
        price_change_percentage_24h: None,
        price_change_percentage_1h_in_currency: Some(1.5),
        price_change_percentage_24h_in_currency: Some(-2.5),
        price_change_percentage_7d_in_currency: None,
        price_change_percentage_14d_in_currency: None,
        price_change_percentage_30d_in_currency: None,
        price_change_percentage_60d_in_currency: None,
        price_change_percentage_200d_in_currency: None,
        price_change_percentage_1y_in_currency: None,
        circulating_supply: None,
        total_supply: None,
        max_supply: None,
        ath: None,
        ath_date: None,
        atl: None,
        atl_date: None,
        last_updated: None,
        sparkline_in_7d: series.map(|price| SparklineData { price }),
    }
}

fn series(len: usize, base: f64) -> Vec<f64> {
    (0..len).map(|i| base + i as f64).collect()
}

fn coins(n: u32) -> Vec<CoinMarket<f64>> {
    (1..=n).map(|r| coin(r, Some(series(168, r as f64 * 1000.0)))).collect()
}

fn loaded(n: u32) -> App<f64> {
    let mut app: App<f64> = App::new();
    app.complete_refresh(Ok(coins(n)), 1_000, 5);
    app
}

fn assert_in_view(app: &App<f64>, rows: usize) {
    let rows = if rows == 0 { 1 } else { rows };
    assert!(app.scroll_offset <= app.selected_index);
    assert!(app.selected_index < app.scroll_offset + rows);
}

#[test]
fn new_state_is_loading_and_empty() {
    let app: App<f64> = App::new();
    assert!(app.loading);
    assert!(app.coins.is_empty());
    assert_eq!(app.selected_index, 0);
    assert_eq!(app.scroll_offset, 0);
    assert_eq!(app.chart_timeframe, ChartTimeframe::TwentyFourHours);
    assert!(app.chart_data.is_empty());
    assert_eq!(app.vs_currency, "usd");
    assert!(app.last_update.is_none());
    assert!(app.error_message.is_none());
    assert!(!app.should_quit);
}

#[test]
fn labels_of_timeframes() {
    assert_eq!(ChartTimeframe::OneHour.label(), "1H");
    assert_eq!(ChartTimeframe::TwentyFourHours.label(), "24H");
    assert_eq!(ChartTimeframe::SevenDays.label(), "7D");
}

#[test]
fn navigation_keeps_selection_in_range_and_view() {
    let mut app = loaded(10);
    let steps: Vec<(Key, usize)> = vec![
        (Key::Down, 3),
        (Key::Down, 3),
        (Key::Down, 3),
        (Key::PageDown, 3),
        (Key::PageDown, 4),
        (Key::PageDown, 4),
        (Key::Down, 2),
        (Key::Up, 1),
        (Key::PageUp, 2),
        (Key::Bottom, 3),
        (Key::Up, 0),
        (Key::PageUp, 20),
        (Key::Down, 1),
        (Key::Top, 3),
        (Key::Up, 3),
        (Key::PageDown, 0),
        (Key::Bottom, 1),
        (Key::Down, 5),
    ];
    for (key, rows) in steps {
        assert_eq!(app.handle_key(key, rows), Action::Continue);
        assert!(app.selected_index < app.coins.len());
        assert_in_view(&app, rows);
    }
    assert_eq!(app.selected_index, 9);
}

#[test]
fn navigation_exact_positions() {
    let mut app = loaded(10);
    app.move_selection_down(3);
    app.move_selection_down(3);
    app.move_selection_down(3);
    assert_eq!((app.selected_index, app.scroll_offset), (3, 1));
    app.page_down(3);
    assert_eq!((app.selected_index, app.scroll_offset), (6, 4));
    app.page_down(3);
    assert_eq!((app.selected_index, app.scroll_offset), (9, 7));
    app.page_down(3);
    assert_eq!((app.selected_index, app.scroll_offset), (9, 7));
    app.move_selection_down(3);
    assert_eq!(app.selected_index, 9);
    app.page_up(4);
    assert_eq!((app.selected_index, app.scroll_offset), (5, 5));
    app.page_up(10);
    assert_eq!((app.selected_index, app.scroll_offset), (0, 0));
    app.move_selection_up(3);
    assert_eq!((app.selected_index, app.scroll_offset), (0, 0));
    app.go_to_bottom(4);
    assert_eq!((app.selected_index, app.scroll_offset), (9, 6));
    app.go_to_top();
    assert_eq!((app.selected_index, app.scroll_offset), (0, 0));
}

#[test]
fn zero_visible_rows_counts_as_one() {
    let mut app = loaded(10);
    app.page_down(0);
    assert_eq!((app.selected_index, app.scroll_offset), (1, 1));
    app.move_selection_down(0);
    assert_eq!((app.selected_index, app.scroll_offset), (2, 2));
    app.page_up(0);
    assert_eq!((app.selected_index, app.scroll_offset), (1, 1));
}

#[test]
fn shrinking_viewport_is_reconciled() {
    let mut app = loaded(10);
    app.page_down(8);
    assert_eq!((app.selected_index, app.scroll_offset), (8, 1));
    app.update_scroll_offset(3);
    assert_eq!((app.selected_index, app.scroll_offset), (8, 6));
}

#[test]
fn navigation_on_empty_list_does_nothing() {
    let mut app: App<f64> = App::new();
    app.move_selection_down(5);
    app.page_down(5);
    app.go_to_bottom(5);
    app.move_selection_up(5);
    app.page_up(5);
    app.go_to_top();
    assert_eq!(app.selected_index, 0);
    assert_eq!(app.scroll_offset, 0);
    assert!(app.chart_data.is_empty());
    assert!(app.selected_coin().is_none());
}

#[test]
fn chart_window_is_idempotent() {
    let prices = series(168, 10.0);
    let first = chart_window(&prices, ChartTimeframe::TwentyFourHours);
    let second = chart_window(&prices, ChartTimeframe::TwentyFourHours);
    assert_eq!(first, second);
    assert_eq!(prices, series(168, 10.0));

    let mut app = loaded(3);
    let before = app.chart_data.clone();
    app.update_chart_data();
    let once = app.chart_data.clone();
    app.update_chart_data();
    assert_eq!(once, before);
    assert_eq!(app.chart_data, once);
}

#[test]
fn cycling_timeframe_three_times_returns() {
    let mut app = loaded(3);
    let start = app.chart_timeframe;
    let chart = app.chart_data.clone();
    app.cycle_timeframe();
    assert_eq!(app.chart_timeframe, ChartTimeframe::SevenDays);
    assert_eq!(app.chart_data.len(), 168);
    app.cycle_timeframe();
    assert_eq!(app.chart_timeframe, ChartTimeframe::OneHour);
    assert_eq!(app.chart_data.len(), 4);
    app.cycle_timeframe();
    assert_eq!(app.chart_timeframe, start);
    assert_eq!(app.chart_data, chart);
    for t in [ChartTimeframe::OneHour, ChartTimeframe::TwentyFourHours, ChartTimeframe::SevenDays] {
        assert_eq!(t.next().next().next(), t);
    }
}

#[test]
fn windows_of_hourly_week() {
    let prices = series(168, 0.0);
    let day = chart_window(&prices, ChartTimeframe::TwentyFourHours);
    assert_eq!(day, prices[144..].to_vec());
    let hour = chart_window(&prices, ChartTimeframe::OneHour);
    assert_eq!(hour, vec![164.0, 165.0, 166.0, 167.0]);
    let week = chart_window(&prices, ChartTimeframe::SevenDays);
    assert_eq!(week, prices);
}

#[test]
fn windows_of_short_and_empty_series() {
    let empty: Vec<f64> = Vec::new();
    for t in [ChartTimeframe::OneHour, ChartTimeframe::TwentyFourHours, ChartTimeframe::SevenDays] {
        assert!(chart_window(&empty, t).is_empty());
        assert_eq!(samples_to_show(0, t), 0);
    }
    let three = vec![1.0, 2.0, 3.0];
    assert_eq!(chart_window(&three, ChartTimeframe::OneHour), three);
    assert_eq!(chart_window(&three, ChartTimeframe::TwentyFourHours), vec![3.0]);
    assert_eq!(samples_to_show(336, ChartTimeframe::OneHour), 8);
    assert_eq!(samples_to_show(336, ChartTimeframe::TwentyFourHours), 48);
    assert_eq!(samples_to_show(336, ChartTimeframe::SevenDays), 336);
    assert_eq!(samples_to_show(10, ChartTimeframe::OneHour), 4);
}

#[test]
fn instrument_without_series_has_empty_chart() {
    let mut app: App<f64> = App::new();
    app.complete_refresh(Ok(vec![coin(1, None), coin(2, Some(series(168, 0.0)))]), 0, 5);
    assert!(app.chart_data.is_empty());
    assert_eq!(app.chart_placeholder(), Some("No chart data available"));
    assert_eq!(app.handle_key(Key::Down, 5), Action::Continue);
    assert_eq!(app.selected_index, 1);
    assert_eq!(app.chart_data.len(), 24);
    assert_eq!(app.chart_placeholder(), None);
}

#[test]
fn navigation_leaves_chart_to_the_event_step() {
    let mut app: App<f64> = App::new();
    app.complete_refresh(Ok(vec![coin(1, Some(series(168, 0.0))), coin(2, None)]), 0, 5);
    assert_eq!(app.chart_data.len(), 24);
    app.move_selection_down(5);
    assert_eq!(app.selected_index, 1);
    assert_eq!(app.chart_data.len(), 24);
    app.update_chart_data();
    assert!(app.chart_data.is_empty());
    app.go_to_top();
    assert!(app.chart_data.is_empty());
    assert_eq!(app.handle_key(Key::Bottom, 5), Action::Continue);
    assert!(app.chart_data.is_empty());
    assert_eq!(app.handle_key(Key::Up, 5), Action::Continue);
    assert_eq!(app.chart_data, series(168, 0.0)[144..].to_vec());
}

#[test]
fn shrinking_refresh_clamps_selection() {
    let mut app = loaded(10);
    app.go_to_bottom(5);
    assert_eq!(app.selected_index, 9);
    assert!(app.begin_refresh());
    app.complete_refresh(Ok(coins(5)), 2_000, 5);
    assert_eq!(app.selected_index, 4);
    assert!(app.scroll_offset <= 4);
    assert_eq!(app.selected_coin().unwrap().market_cap_rank, Some(5));
    assert_eq!(app.chart_data[0], 5000.0 + 144.0);
}

#[test]
fn refresh_to_empty_list_resets_selection() {
    let mut app = loaded(4);
    app.go_to_bottom(5);
    app.complete_refresh(Ok(Vec::new()), 2_000, 5);
    assert_eq!(app.selected_index, 0);
    assert_eq!(app.scroll_offset, 0);
    assert!(app.chart_data.is_empty());
}

#[test]
fn auto_refresh_waits_a_full_interval() {
    let mut app = loaded(3);
    assert!(!app.is_auto_refresh_due(1_000, 60_000));
    assert!(!app.is_auto_refresh_due(60_999, 60_000));
    assert!(app.is_auto_refresh_due(61_000, 60_000));
    assert!(app.is_auto_refresh_due(500_000, 60_000));
    assert!(!app.is_auto_refresh_due(500, 60_000));
    assert!(app.begin_refresh());
    assert!(!app.is_auto_refresh_due(500_000, 60_000));
}

#[test]
fn failed_fetch_keeps_list_and_waits() {
    let mut app = loaded(3);
    assert!(app.poll_auto_refresh(61_000, 60_000));
    assert!(app.loading);
    app.complete_refresh(Err("timed out".to_string()), 70_000, 5);
    assert!(!app.loading);
    assert!(!app.is_auto_refresh_due(70_000, 60_000));
    assert!(!app.poll_auto_refresh(70_000, 60_000));
    assert_eq!(app.error_message.as_deref(), Some("timed out"));
    assert_eq!(app.coins.len(), 3);
    assert_eq!(app.coins[2].symbol, "c3");
    assert_eq!(app.last_update, Some(1_000));
    app.complete_refresh(Err("second".to_string()), 80_000, 5);
    assert_eq!(app.error_message.as_deref(), Some("second"));
    app.complete_refresh(Ok(coins(2)), 90_000, 5);
    assert!(app.error_message.is_none());
    assert_eq!(app.last_update, Some(90_000));
}

#[test]
fn begin_refresh_while_loading_does_nothing() {
    let mut app: App<f64> = App::new();
    assert!(app.loading);
    assert!(!app.begin_refresh());
    assert!(app.loading);
    assert_eq!(app.handle_key(Key::Refresh, 5), Action::Continue);
    app.complete_refresh(Ok(coins(2)), 0, 5);
    assert_eq!(app.handle_key(Key::Refresh, 5), Action::Fetch);
    assert!(app.loading);
    assert_eq!(app.handle_key(Key::Refresh, 5), Action::Continue);
    assert_eq!(app.chart_placeholder(), None);
}

#[test]
fn keys_quit_and_cycle() {
    let mut app = loaded(3);
    assert_eq!(app.handle_key(Key::Other, 5), Action::Continue);
    assert_eq!(app.handle_key(Key::CycleTimeframe, 5), Action::Continue);
    assert_eq!(app.chart_timeframe, ChartTimeframe::SevenDays);
    assert!(!app.should_quit);
    assert_eq!(app.handle_key(Key::Quit, 5), Action::Quit);
    assert!(app.should_quit);
}

#[test]
fn viewport_rows_leave_room_for_chrome() {
    assert_eq!(viewport_rows(40), 22);
    assert_eq!(viewport_rows(50), 30);
    assert_eq!(viewport_rows(12), 0);
    assert_eq!(viewport_rows(0), 0);
}

#[test]
fn update_status_reports_freshness() {
    let mut app: App<f64> = App::new();
    assert_eq!(app.update_status(5_000), UpdateStatus::Loading);
    assert_eq!(app.chart_placeholder(), Some("Loading chart data..."));
    app.complete_refresh(Err("down".to_string()), 1_000, 5);
    assert_eq!(app.update_status(5_000), UpdateStatus::NotUpdated);
    app.complete_refresh(Ok(coins(1)), 2_000, 5);
    assert_eq!(app.update_status(14_500), UpdateStatus::UpdatedSecondsAgo(12));
}

#[test]
fn change_for_picks_horizon() {
    let c = coin(1, None);
    assert_eq!(c.change_for(ChartTimeframe::OneHour), Some(1.5));
    assert_eq!(c.change_for(ChartTimeframe::TwentyFourHours), Some(-2.5));
    assert_eq!(c.change_for(ChartTimeframe::SevenDays), None);
}

#[test]
fn default_matches_new() {
    let app: App<f64> = App::default();
    assert!(app.loading);
    assert!(app.coins.is_empty());
    assert_eq!(app.chart_timeframe, ChartTimeframe::TwentyFourHours);
    assert_eq!(app.vs_currency, "usd");
}
