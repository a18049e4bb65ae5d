use vstd::prelude::*;
use crate::address::Address;

verus! {

/// Which side of the market an order rests on. On the wire a side is one
/// byte: 0 for `Buy`, 1 for `Sell`.
#[derive(Clone, Copy, Debug, PartialEq, Eq, Structural)]
pub enum Side {
    Buy,
    Sell,
}

impl Side {
    /// The side that a wire byte stands for, if it stands for one.
    pub open spec fn spec_from_u8(byte: u8) -> Option<Side> {
        if byte == 0 {
            Some(Side::Buy)
        } else if byte == 1 {
            Some(Side::Sell)
        } else {
            None
        }
    }

    /// The wire byte of a side.
    pub open spec fn spec_to_u8(self) -> u8 {
        match self {
            Side::Buy => 0,
            Side::Sell => 1,
        }
    }

    /// Reads a side from its wire byte; any byte but 0 and 1 is rejected.
    pub fn from_u8(byte: u8) -> (side: Option<Side>)
        ensures
            side == Side::spec_from_u8(byte),
    {
        if byte == 0 {
            Some(Side::Buy)
        } else if byte == 1 {
            Some(Side::Sell)
        } else {
            None
        }
    }

    /// The wire byte of a side.
    pub fn to_u8(self) -> (byte: u8)
        ensures
            byte == self.spec_to_u8(),
    {
        match self {
            Side::Buy => 0,
            Side::Sell => 1,
        }
    }

    /// Sides and the bytes 0 and 1 stand for each other: a side is read back
    /// from its byte, and a byte that is read as a side is that side's byte.
    pub proof fn lemma_wire_round_trip(side: Side, byte: u8)
        ensures
            Side::spec_from_u8(side.spec_to_u8()) == Some(side),
            Side::spec_from_u8(byte) == Some(side) ==> side.spec_to_u8() == byte,
            Side::spec_from_u8(byte) is Some <==> byte <= 1,
    {
    }
}

/// A trading pair: two asset identifiers and the smallest price increment.
/// Nothing ties a pair to a single record, and a tick size of 0 is allowed.
#[derive(Clone, Copy, Debug, PartialEq, Eq)]
pub struct Market {
    pub base_mint: Address,
    pub quote_mint: Address,
    pub tick_size: u64,
}

impl Market {
    /// Bytes that the fields of a market take in storage.
    pub const LEN: usize = 32 + 32 + 8;
}

/// One limit order. A record is created active and is deactivated at most
/// once; no other field changes after creation.
#[derive(Clone, Copy, Debug, PartialEq, Eq)]
pub struct Order {
    pub market: Address,
    pub owner: Address,
    pub side: Side,
    pub price: u64,
    pub quantity: u64,
    pub remaining: u64,
    pub client_order_id: u64,
    pub is_active: bool,
    pub bump: u8,
    pub created_at: i64,
}

impl Order {
    /// Bytes that the fields of an order take in storage.
    pub const LEN: usize = 32 + 32 + 1 + 8 + 8 + 8 + 8 + 1 + 1 + 8;

    /// What holds of every order that was placed: the terms are positive and
    /// nothing has been filled.
    pub open spec fn well_formed(self) -> bool {
        &&& self.price > 0
        &&& self.quantity > 0
        &&& self.remaining == self.quantity
    }
}

} // verus!
