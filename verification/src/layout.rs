use vstd::prelude::*;
use vstd::bytes::{
    lemma_auto_spec_u64_to_from_le_bytes, spec_u64_from_le_bytes, spec_u64_to_le_bytes,
    u64_from_le_bytes, u64_to_le_bytes,
};
use vstd::slice::{slice_subrange, slice_to_vec};
use crate::address::Address;
use crate::state::{Market, Order, Side};

verus! {

/// Bytes of the prefix that tells the kind of a stored record.
pub const DISCRIMINATOR_LEN: usize = 8;

/// Prefix of every stored market: the first eight bytes of the SHA-256 hash
/// of `account:Market`.
pub const MARKET_DISCRIMINATOR: [u8; 8] = [219, 190, 213, 55, 0, 227, 198, 154];

/// Prefix of every stored order: the first eight bytes of the SHA-256 hash
/// of `account:Order`.
pub const ORDER_DISCRIMINATOR: [u8; 8] = [134, 173, 223, 185, 77, 86, 28, 51];

/// Bytes of a stored market, prefix included.
pub const MARKET_SPACE: usize = DISCRIMINATOR_LEN + Market::LEN;

/// Bytes of a stored order, prefix included.
pub const ORDER_SPACE: usize = DISCRIMINATOR_LEN + Order::LEN;

/// Why a run of bytes is not a stored record.
#[derive(Clone, Copy, Debug, PartialEq, Eq, Structural)]
pub enum DecodeError {
    /// The bytes are not as many as the record takes.
    WrongLength,
    /// The prefix is not that of the record's kind.
    WrongDiscriminator,
    /// The side byte is neither 0 nor 1.
    InvalidSide,
    /// The byte of the active flag is neither 0 nor 1.
    InvalidFlag,
}

/// The unsigned number with the same 64 bits as `x` in two's complement.
pub open spec fn spec_i64_bits(x: i64) -> u64 {
    if x >= 0 {
        x as u64
    } else {
        (x + 0x1_0000_0000_0000_0000) as u64
    }
}

/// The signed number with the same 64 bits as `bits` in two's complement.
pub open spec fn spec_i64_from_bits(bits: u64) -> i64 {
    if bits <= 0x7fff_ffff_ffff_ffff {
        bits as i64
    } else {
        (bits - 0x1_0000_0000_0000_0000) as i64
    }
}

/// The 64 bits of a signed number, read as an unsigned one.
fn i64_bits(x: i64) -> (bits: u64)
    ensures
        bits == spec_i64_bits(x),
{
    if x >= 0 {
        x as u64
    } else {
        let above_min: i64 = x - i64::MIN;
        above_min as u64 + 0x8000_0000_0000_0000u64
    }
}

/// The signed number that 64 bits stand for.
fn i64_from_bits(bits: u64) -> (x: i64)
    ensures
        x == spec_i64_from_bits(bits),
{
    if bits <= 0x7fff_ffff_ffff_ffff {
        bits as i64
    } else {
        let above_min: u64 = bits - 0x8000_0000_0000_0000u64;
        above_min as i64 + i64::MIN
    }
}

/// The byte that stores a flag: 1 for `true`, 0 for `false`.
pub open spec fn spec_flag_byte(flag: bool) -> u8 {
    if flag {
        1
    } else {
        0
    }
}

/// Reads the address stored in the 32 bytes that start at `at`.
fn read_address(bytes: &[u8], at: usize) -> (a: Address)
    requires
        at + 32 <= bytes@.len() <= usize::MAX,
    ensures
        a == Address::spec_from_bytes(bytes@.subrange(at as int, at + 32)),
{
    let a = Address::read_at(bytes, at);
    proof {
        Address::lemma_spec_from_bytes_of_view(a);
    }
    a
}

/// Reads the little-endian number stored in the 8 bytes that start at `at`.
fn read_u64(bytes: &[u8], at: usize) -> (x: u64)
    requires
        at + 8 <= bytes@.len() <= usize::MAX,
    ensures
        x == spec_u64_from_le_bytes(bytes@.subrange(at as int, at + 8)),
{
    u64_from_le_bytes(slice_subrange(bytes, at, at + 8))
}

/// Tells whether the bytes open with the given prefix.
fn has_prefix(bytes: &[u8], prefix: &[u8; 8]) -> (r: bool)
    requires
        bytes@.len() >= 8,
    ensures
        r == (bytes@.subrange(0, 8) == prefix@),
{
    let mut i: usize = 0;
    while i < 8
        invariant
            i <= 8,
            bytes@.len() >= 8,
            forall|k: int| 0 <= k < i ==> bytes@[k] == prefix@[k],
        decreases 8 - i,
    {
        if bytes[i] != prefix[i] {
            assert(bytes@.subrange(0, 8)[i as int] != prefix@[i as int]);
            return false;
        }
        i += 1;
    }
    assert(bytes@.subrange(0, 8) =~= prefix@);
    true
}

impl Market {
    /// A market as it is stored: the prefix, the two assets, then the tick
    /// size as 8 little-endian bytes.
    pub open spec fn spec_to_bytes(self) -> Seq<u8> {
        MARKET_DISCRIMINATOR@ + self.base_mint@ + self.quote_mint@ + spec_u64_to_le_bytes(
            self.tick_size,
        )
    }

    /// What is wrong with a run of bytes as a stored market, if anything.
    pub open spec fn spec_decode_error(bytes: Seq<u8>) -> Option<DecodeError> {
        if bytes.len() != MARKET_SPACE {
            Some(DecodeError::WrongLength)
        } else if bytes.subrange(0, 8) != MARKET_DISCRIMINATOR@ {
            Some(DecodeError::WrongDiscriminator)
        } else {
            None
        }
    }

    /// The market that a run of bytes stores, or what is wrong with them.
    pub open spec fn spec_from_bytes(bytes: Seq<u8>) -> Result<Market, DecodeError> {
        match Market::spec_decode_error(bytes) {
            Some(e) => Err(e),
            None => Ok(
                Market {
                    base_mint: Address::spec_from_bytes(bytes.subrange(8, 40)),
                    quote_mint: Address::spec_from_bytes(bytes.subrange(40, 72)),
                    tick_size: spec_u64_from_le_bytes(bytes.subrange(72, 80)),
                },
            ),
        }
    }

    /// Writes the market as it is stored.
    pub fn to_bytes(&self) -> (bytes: Vec<u8>)
        ensures
            bytes@ == self.spec_to_bytes(),
            bytes@.len() == MARKET_SPACE,
    {
        let mut out: Vec<u8> = slice_to_vec(MARKET_DISCRIMINATOR.as_slice());
        let mut base = self.base_mint.to_vec();
        out.append(&mut base);
        let mut quote = self.quote_mint.to_vec();
        out.append(&mut quote);
        let mut tick = u64_to_le_bytes(self.tick_size);
        out.append(&mut tick);
        out
    }

    /// Reads a stored market. The bytes must be exactly those of one record.
    pub fn from_bytes(bytes: &[u8]) -> (res: Result<Market, DecodeError>)
        ensures
            res == Market::spec_from_bytes(bytes@),
    {
        if bytes.len() != MARKET_SPACE {
            return Err(DecodeError::WrongLength);
        }
        if !has_prefix(bytes, &MARKET_DISCRIMINATOR) {
            return Err(DecodeError::WrongDiscriminator);
        }
        Ok(
            Market {
                base_mint: read_address(bytes, 8),
                quote_mint: read_address(bytes, 40),
                tick_size: read_u64(bytes, 72),
            },
        )
    }

    /// Reading what was written gives the market back.
    pub proof fn lemma_from_bytes_of_to_bytes(market: Market)
        ensures
            Market::spec_from_bytes(market.spec_to_bytes()) == Ok::<Market, DecodeError>(market),
    {
        lemma_auto_spec_u64_to_from_le_bytes();
        let bytes = market.spec_to_bytes();
        assert(bytes.subrange(0, 8) =~= MARKET_DISCRIMINATOR@);
        assert(bytes.subrange(8, 40) =~= market.base_mint@);
        assert(bytes.subrange(40, 72) =~= market.quote_mint@);
        assert(bytes.subrange(72, 80) =~= spec_u64_to_le_bytes(market.tick_size));
        Address::lemma_spec_from_bytes_of_view(market.base_mint);
        Address::lemma_spec_from_bytes_of_view(market.quote_mint);
    }

    /// Bytes that are read as a market are the bytes that this market is
    /// written as.
    pub proof fn lemma_to_bytes_of_from_bytes(bytes: Seq<u8>)
        requires
            Market::spec_from_bytes(bytes) is Ok,
        ensures
            Market::spec_from_bytes(bytes).unwrap().spec_to_bytes() == bytes,
    {
        lemma_auto_spec_u64_to_from_le_bytes();
        Address::lemma_spec_from_bytes(bytes.subrange(8, 40));
        Address::lemma_spec_from_bytes(bytes.subrange(40, 72));
        let market = Market::spec_from_bytes(bytes).unwrap();
        assert(spec_u64_to_le_bytes(market.tick_size) == bytes.subrange(72, 80));
        assert(market.spec_to_bytes() =~= bytes.subrange(0, 8) + bytes.subrange(8, 40)
            + bytes.subrange(40, 72) + bytes.subrange(72, 80));
        assert(bytes =~= bytes.subrange(0, 8) + bytes.subrange(8, 40) + bytes.subrange(40, 72)
            + bytes.subrange(72, 80));
    }
}

impl Order {
    /// An order as it is stored: the prefix, then the fields in the order of
    /// their declaration. An address takes its 32 bytes, a number its 8
    /// little-endian bytes (two's complement for the time of creation), the
    /// side, the active flag and the bump seed one byte each.
    pub open spec fn spec_to_bytes(self) -> Seq<u8> {
        ORDER_DISCRIMINATOR@ + self.market@ + self.owner@ + seq![self.side.spec_to_u8()]
            + spec_u64_to_le_bytes(self.price) + spec_u64_to_le_bytes(self.quantity)
            + spec_u64_to_le_bytes(self.remaining) + spec_u64_to_le_bytes(self.client_order_id)
            + seq![spec_flag_byte(self.is_active)] + seq![self.bump] + spec_u64_to_le_bytes(
            spec_i64_bits(self.created_at),
        )
    }

    /// What is wrong with a run of bytes as a stored order, if anything.
    /// The first fault in the order of the bytes is the one reported.
    pub open spec fn spec_decode_error(bytes: Seq<u8>) -> Option<DecodeError> {
        if bytes.len() != ORDER_SPACE {
            Some(DecodeError::WrongLength)
        } else if bytes.subrange(0, 8) != ORDER_DISCRIMINATOR@ {
            Some(DecodeError::WrongDiscriminator)
        } else if Side::spec_from_u8(bytes[72]) is None {
            Some(DecodeError::InvalidSide)
        } else if bytes[105] > 1 {
            Some(DecodeError::InvalidFlag)
        } else {
            None
        }
    }

    /// The order that a run of bytes stores, or what is wrong with them.
    pub open spec fn spec_from_bytes(bytes: Seq<u8>) -> Result<Order, DecodeError> {
        match Order::spec_decode_error(bytes) {
            Some(e) => Err(e),
            None => Ok(
                Order {
                    market: Address::spec_from_bytes(bytes.subrange(8, 40)),
                    owner: Address::spec_from_bytes(bytes.subrange(40, 72)),
                    side: Side::spec_from_u8(bytes[72]).unwrap(),
                    price: spec_u64_from_le_bytes(bytes.subrange(73, 81)),
                    quantity: spec_u64_from_le_bytes(bytes.subrange(81, 89)),
                    remaining: spec_u64_from_le_bytes(bytes.subrange(89, 97)),
                    client_order_id: spec_u64_from_le_bytes(bytes.subrange(97, 105)),
                    is_active: bytes[105] == 1,
                    bump: bytes[106],
                    created_at: spec_i64_from_bits(
                        spec_u64_from_le_bytes(bytes.subrange(107, 115)),
                    ),
                },
            ),
        }
    }

    /// Writes the order as it is stored.
    pub fn to_bytes(&self) -> (bytes: Vec<u8>)
        ensures
            bytes@ == self.spec_to_bytes(),
            bytes@.len() == ORDER_SPACE,
    {
        let mut out: Vec<u8> = slice_to_vec(ORDER_DISCRIMINATOR.as_slice());
        let mut market = self.market.to_vec();
        out.append(&mut market);
        let mut owner = self.owner.to_vec();
        out.append(&mut owner);
        out.push(self.side.to_u8());
        let mut price = u64_to_le_bytes(self.price);
        out.append(&mut price);
        let mut quantity = u64_to_le_bytes(self.quantity);
        out.append(&mut quantity);
        let mut remaining = u64_to_le_bytes(self.remaining);
        out.append(&mut remaining);
        let mut client_order_id = u64_to_le_bytes(self.client_order_id);
        out.append(&mut client_order_id);
        out.push(if self.is_active { 1 } else { 0 });
        out.push(self.bump);
        let mut created_at = u64_to_le_bytes(i64_bits(self.created_at));
        out.append(&mut created_at);
        assert(out@ =~= self.spec_to_bytes());
        out
    }

    /// Reads a stored order. The bytes must be exactly those of one record,
    /// and the bytes of the side and of the active flag must be 0 or 1.
    pub fn from_bytes(bytes: &[u8]) -> (res: Result<Order, DecodeError>)
        ensures
            res == Order::spec_from_bytes(bytes@),
    {
        if bytes.len() != ORDER_SPACE {
            return Err(DecodeError::WrongLength);
        }
        if !has_prefix(bytes, &ORDER_DISCRIMINATOR) {
            return Err(DecodeError::WrongDiscriminator);
        }
        let side = match Side::from_u8(bytes[72]) {
            Some(side) => side,
            None => {
                return Err(DecodeError::InvalidSide);
            },
        };
        if bytes[105] > 1 {
            return Err(DecodeError::InvalidFlag);
        }
        Ok(
            Order {
                market: read_address(bytes, 8),
                owner: read_address(bytes, 40),
                side,
                price: read_u64(bytes, 73),
                quantity: read_u64(bytes, 81),
                remaining: read_u64(bytes, 89),
                client_order_id: read_u64(bytes, 97),
                is_active: bytes[105] == 1,
                bump: bytes[106],
                created_at: i64_from_bits(read_u64(bytes, 107)),
            },
        )
    }

    /// Reading what was written gives the order back.
    pub proof fn lemma_from_bytes_of_to_bytes(order: Order)
        ensures
            Order::spec_from_bytes(order.spec_to_bytes()) == Ok::<Order, DecodeError>(order),
    {
        lemma_auto_spec_u64_to_from_le_bytes();
        let bytes = order.spec_to_bytes();
        assert(bytes.subrange(0, 8) =~= ORDER_DISCRIMINATOR@);
        assert(bytes.subrange(8, 40) =~= order.market@);
        assert(bytes.subrange(40, 72) =~= order.owner@);
        assert(bytes.subrange(73, 81) =~= spec_u64_to_le_bytes(order.price));
        assert(bytes.subrange(81, 89) =~= spec_u64_to_le_bytes(order.quantity));
        assert(bytes.subrange(89, 97) =~= spec_u64_to_le_bytes(order.remaining));
        assert(bytes.subrange(97, 105) =~= spec_u64_to_le_bytes(order.client_order_id));
        assert(bytes.subrange(107, 115) =~= spec_u64_to_le_bytes(
            spec_i64_bits(order.created_at),
        ));
        Address::lemma_spec_from_bytes_of_view(order.market);
        Address::lemma_spec_from_bytes_of_view(order.owner);
    }

    /// Bytes that are read as an order are the bytes that this order is
    /// written as.
    pub proof fn lemma_to_bytes_of_from_bytes(bytes: Seq<u8>)
        requires
            Order::spec_from_bytes(bytes) is Ok,
        ensures
            Order::spec_from_bytes(bytes).unwrap().spec_to_bytes() == bytes,
    {
        lemma_auto_spec_u64_to_from_le_bytes();
        Address::lemma_spec_from_bytes(bytes.subrange(8, 40));
        Address::lemma_spec_from_bytes(bytes.subrange(40, 72));
        let order = Order::spec_from_bytes(bytes).unwrap();
        assert(spec_u64_to_le_bytes(order.price) == bytes.subrange(73, 81));
        assert(spec_u64_to_le_bytes(order.quantity) == bytes.subrange(81, 89));
        assert(spec_u64_to_le_bytes(order.remaining) == bytes.subrange(89, 97));
        assert(spec_u64_to_le_bytes(order.client_order_id) == bytes.subrange(97, 105));
        assert(spec_u64_to_le_bytes(spec_i64_bits(order.created_at)) == bytes.subrange(107, 115));
        let parts = bytes.subrange(0, 8) + bytes.subrange(8, 40) + bytes.subrange(40, 72)
            + seq![bytes[72]] + bytes.subrange(73, 81) + bytes.subrange(81, 89) + bytes.subrange(
            89,
            97,
        ) + bytes.subrange(97, 105) + seq![bytes[105]] + seq![bytes[106]] + bytes.subrange(
            107,
            115,
        );
        assert(order.spec_to_bytes() =~= parts);
        assert(bytes =~= parts);
    }
}

} // verus!
