//! A small session layer over an Interactive Brokers gateway client.
//!
//! The library decides what each operation hands to the gateway client:
//! which connection target is dialled, which historical-bar request is made,
//! and which order ticket is submitted. It adds no validation of its own, so
//! every value a caller supplies reaches the gateway as it was given.
mod history;
mod order;
mod session;

pub use history::{historical_query, BarSize, HistoricalQuery, TradingHours, WhatToShow};
pub use order::{bracket_ticket, market_ticket, OrderShape, OrderTicket, Side};
pub use session::{connect_target, ConnectTarget, Trader};
