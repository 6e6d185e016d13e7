use vstd::prelude::*;

verus! {

/// `time::OffsetDateTime`, carried as an opaque value to the gateway client.
#[verifier::external_type_specification]
#[verifier::external_body]
pub struct ExOffsetDateTime(time::OffsetDateTime);

/// The gateway client's span of history (a count and a unit), carried as an
/// opaque value.
#[verifier::external_type_specification]
#[verifier::external_body]
pub struct ExDuration(ibapi::market_data::historical::Duration);

/// Width of one bar in a historical request.
#[derive(Clone, Copy, Debug, PartialEq, Eq, Structural)]
pub enum BarSize {
    Hour,
}

/// Which prices the bars are built from.
#[derive(Clone, Copy, Debug, PartialEq, Eq, Structural)]
pub enum WhatToShow {
    Trades,
}

/// Whether bars cover regular trading hours only, or extended hours too.
#[derive(Clone, Copy, Debug, PartialEq, Eq, Structural)]
pub enum TradingHours {
    Regular,
    Extended,
}

/// A historical-bar request, as handed to the gateway client together with the
/// instrument.
pub struct HistoricalQuery {
    /// Last moment of the window; `None` means "now" at the gateway.
    pub end: Option<time::OffsetDateTime>,
    pub duration: ibapi::market_data::historical::Duration,
    pub bar_size: BarSize,
    pub what_to_show: Option<WhatToShow>,
    pub trading_hours: TradingHours,
}

/// The request for hourly trade bars over `duration`, ending at `end`, within
/// regular trading hours. `end` and `duration` are forwarded unmodified.
pub fn historical_query(
    end: Option<time::OffsetDateTime>,
    duration: ibapi::market_data::historical::Duration,
) -> (r: HistoricalQuery)
    ensures
        r.end == end,
        r.duration == duration,
        r.bar_size == BarSize::Hour,
        r.what_to_show == Some(WhatToShow::Trades),
        r.trading_hours == TradingHours::Regular,
{
    HistoricalQuery {
        end,
        duration,
        bar_size: BarSize::Hour,
        what_to_show: Some(WhatToShow::Trades),
        trading_hours: TradingHours::Regular,
    }
}

} // verus!
