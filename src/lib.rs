//! Aggregate statistics over a corpus of fuel log entries: dashboard totals,
//! rankings, monthly and weekly buckets, efficiency, cost, behaviour and
//! forecast figures.
//!
//! Quantities (litres, prices, costs, odometer readings) are fixed-point
//! integers in thousandths of a unit, and so are the sums of them that the
//! statistics report. Every other real-valued figure (averages, ratios,
//! percentages, forecasts) is an exact fraction (`Ratio`) in whole units,
//! never rounded.

pub mod model;
pub mod calendar;
pub mod ranking;
pub mod totals;
pub mod monthly;
pub mod cost;
pub mod efficiency;
pub mod behavior;
pub mod consumption;
pub mod prices;
pub mod forecast;
pub mod report;
pub mod store;
