use vstd::prelude::*;

verus! {

/// Direction of an order.
#[derive(Clone, Copy, Debug, PartialEq, Eq, Structural)]
pub enum Side {
    Buy,
    Sell,
}

/// The shape of an order as it is handed to the gateway's order builder.
#[derive(Clone, Copy, Debug, PartialEq, Eq, Structural)]
pub enum OrderShape {
    /// A single market order.
    Market,
    /// A limit entry with a take-profit and a stop-loss exit, submitted as one group.
    Bracket,
}

/// Everything about an order that this library decides, apart from the instrument
/// and the prices, which are passed through to the gateway client untouched.
#[derive(Clone, Copy, Debug, PartialEq, Eq, Structural)]
pub struct OrderTicket {
    pub side: Side,
    pub quantity: i32,
    pub shape: OrderShape,
}

/// A market order for `quantity` units in direction `side`.
///
/// No quantity is refused here: a zero or negative quantity is forwarded as it
/// is, and the gateway decides whether to accept it.
pub fn market_ticket(side: Side, quantity: i32) -> (r: OrderTicket)
    ensures
        r == (OrderTicket { side, quantity, shape: OrderShape::Market }),
{
    OrderTicket { side, quantity, shape: OrderShape::Market }
}

/// A buy bracket for `quantity` units: a limit entry, then a take-profit and a
/// stop-loss exit. The quantity is forwarded without any check.
pub fn bracket_ticket(quantity: i32) -> (r: OrderTicket)
    ensures
        r == (OrderTicket { side: Side::Buy, quantity, shape: OrderShape::Bracket }),
{
    OrderTicket { side: Side::Buy, quantity, shape: OrderShape::Bracket }
}

} // verus!
