//! State and update engine of a terminal market dashboard: selection and
//! scrolling over a ranked instrument list, time-windowed chart data, and the
//! refresh schedule that drives data fetches.
pub mod timeframe;
pub mod chart;
pub mod nav;
pub mod market;
pub mod app;
pub mod refresh;
pub mod event;
