//! A registry of markets and limit orders for a ledger of accounts: the
//! records, how they are stored, where an order's record lives, and the three
//! operations that create a market, place an order and cancel one. Nothing
//! here matches orders or moves funds.

pub mod address;
pub mod error;
pub mod instructions;
pub mod layout;
pub mod pda;
pub mod state;

pub use crate::address::Address;
pub use crate::error::{DexError, InstructionError};
pub use crate::instructions::{
    cancel_order, init_market, place_limit_order, place_limit_order_with_clock, CancelOrder,
    InitMarket, PlaceLimitOrder,
};
pub use crate::state::{Market, Order, Side};
