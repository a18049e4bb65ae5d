use vstd::prelude::*;
use anchor_lang::prelude::{Clock, SolanaSysvar};
use anchor_lang::solana_program::program_error::ProgramError;
use crate::address::Address;
use crate::error::{DexError, InstructionError};
use crate::state::{Market, Order, Side};

verus! {

/// What `init_market` works on: the market record to fill, the two assets
/// of the pair and the identity that pays for the record.
#[derive(Clone, Copy, Debug, PartialEq, Eq)]
pub struct InitMarket {
    pub market: Market,
    pub base_mint: Address,
    pub quote_mint: Address,
    pub authority: Address,
}

/// What `place_limit_order` works on: the address of the market, the order
/// record to fill, the identity that places the order, and the bump seed
/// with which the record's address was derived.
#[derive(Clone, Copy, Debug, PartialEq, Eq)]
pub struct PlaceLimitOrder {
    pub market: Address,
    pub order: Order,
    pub owner: Address,
    pub order_bump: u8,
}

/// What `cancel_order` works on: the order record and the identity that asks
/// for the cancellation.
#[derive(Clone, Copy, Debug, PartialEq, Eq)]
pub struct CancelOrder {
    pub order: Order,
    pub owner: Address,
}

impl InitMarket {
    /// The context after the market record has been filled.
    pub open spec fn initialized(self, tick_size: u64) -> InitMarket {
        InitMarket {
            market: Market {
                base_mint: self.base_mint,
                quote_mint: self.quote_mint,
                tick_size,
            },
            ..self
        }
    }
}

impl PlaceLimitOrder {
    /// The context after an order with the given terms has been recorded at
    /// time `created_at`.
    pub open spec fn placed(
        self,
        side: Side,
        price: u64,
        quantity: u64,
        client_order_id: u64,
        created_at: i64,
    ) -> PlaceLimitOrder {
        PlaceLimitOrder {
            order: Order {
                market: self.market,
                owner: self.owner,
                side,
                price,
                quantity,
                remaining: quantity,
                client_order_id,
                is_active: true,
                bump: self.order_bump,
                created_at,
            },
            ..self
        }
    }
}

impl CancelOrder {
    /// Whether a cancellation goes through. An inactive order is reported
    /// before a wrong caller is.
    pub open spec fn outcome(self) -> Result<(), DexError> {
        if !self.order.is_active {
            Err(DexError::OrderNotActive)
        } else if self.order.owner != self.owner {
            Err(DexError::Unauthorized)
        } else {
            Ok(())
        }
    }

    /// The context after the order has been deactivated: no other field of
    /// the record differs.
    pub open spec fn cancelled(self) -> CancelOrder {
        CancelOrder { order: Order { is_active: false, ..self.order }, ..self }
    }

    /// The context after a request to cancel: deactivated where the request
    /// goes through, untouched where it is rejected.
    pub open spec fn after(self) -> CancelOrder {
        if self.outcome() is Ok {
            self.cancelled()
        } else {
            self
        }
    }
}

/// The terms of an order as they are checked, in this order: the side byte,
/// then the price, then the quantity. The first check that fails names the
/// rejection.
pub open spec fn spec_check_order_terms(side: u8, price: u64, quantity: u64) -> Result<
    Side,
    DexError,
> {
    if side > 1 {
        Err(DexError::InvalidSide)
    } else if price == 0 {
        Err(DexError::InvalidPrice)
    } else if quantity == 0 {
        Err(DexError::InvalidQuantity)
    } else if side == 0 {
        Ok(Side::Buy)
    } else {
        Ok(Side::Sell)
    }
}

/// Checks the terms of an order and reads its side.
pub fn check_order_terms(side: u8, price: u64, quantity: u64) -> (res: Result<Side, DexError>)
    ensures
        res == spec_check_order_terms(side, price, quantity),
{
    if side > 1 {
        return Err(DexError::InvalidSide);
    }
    if price == 0 {
        return Err(DexError::InvalidPrice);
    }
    if quantity == 0 {
        return Err(DexError::InvalidQuantity);
    }
    if side == 0 {
        Ok(Side::Buy)
    } else {
        Ok(Side::Sell)
    }
}

/// `Clock::get`, which asks the host for its clock, reduced to the clock's
/// `unix_timestamp`. Nothing is claimed of the answer: away from the ledger
/// the host has no clock and the call fails, and on the ledger the time is
/// whatever the host says it is.
#[verifier::external_body]
fn clock_unix_timestamp() -> (res: Result<i64, ProgramError>) {
    match Clock::get() {
        Ok(clock) => Ok(clock.unix_timestamp),
        Err(e) => Err(e),
    }
}

/// Fills the market record with the two assets of the context and the given
/// tick size. Every tick size is accepted, 0 too, and the call cannot fail.
pub fn init_market(ctx: &mut InitMarket, tick_size: u64) -> (res: Result<(), DexError>)
    ensures
        res is Ok,
        *final(ctx) == old(ctx).initialized(tick_size),
{
    ctx.market = Market { base_mint: ctx.base_mint, quote_mint: ctx.quote_mint, tick_size };
    Ok(())
}

/// Records a limit order, given what the host's clock answered. The terms
/// are judged first: with bad terms the answer of the clock does not matter.
/// With good terms the order is recorded at the time the clock gave, or the
/// clock's failure is handed on. Whenever the call fails the context is left
/// as it was.
pub fn place_limit_order_with_clock(
    ctx: &mut PlaceLimitOrder,
    side: u8,
    price: u64,
    quantity: u64,
    client_order_id: u64,
    clock: Result<i64, ProgramError>,
) -> (res: Result<(), InstructionError>)
    ensures
        match spec_check_order_terms(side, price, quantity) {
            Err(e) => res == Err::<(), InstructionError>(InstructionError::Dex(e)) && *final(ctx)
                == *old(ctx),
            Ok(s) => match clock {
                Ok(now) => res is Ok && *final(ctx) == old(ctx).placed(
                    s,
                    price,
                    quantity,
                    client_order_id,
                    now,
                ),
                Err(e) => res == Err::<(), InstructionError>(InstructionError::Program(e))
                    && *final(ctx) == *old(ctx),
            },
        },
{
    let s = match check_order_terms(side, price, quantity) {
        Ok(s) => s,
        Err(e) => {
            return Err(InstructionError::Dex(e));
        },
    };
    let now = match clock {
        Ok(now) => now,
        Err(e) => {
            return Err(InstructionError::Program(e));
        },
    };
    ctx.order = Order {
        market: ctx.market,
        owner: ctx.owner,
        side: s,
        price,
        quantity,
        remaining: quantity,
        client_order_id,
        is_active: true,
        bump: ctx.order_bump,
        created_at: now,
    };
    Ok(())
}

/// Records a limit order, timed by the host's clock. The terms are checked
/// before the clock is asked, so a rejection never depends on the clock.
/// With good terms the order is recorded unless the host has no time to
/// give; whenever the call fails the context is left as it was.
pub fn place_limit_order(
    ctx: &mut PlaceLimitOrder,
    side: u8,
    price: u64,
    quantity: u64,
    client_order_id: u64,
) -> (res: Result<(), InstructionError>)
    ensures
        match spec_check_order_terms(side, price, quantity) {
            Err(e) => res == Err::<(), InstructionError>(InstructionError::Dex(e)) && *final(ctx)
                == *old(ctx),
            Ok(s) => match res {
                Ok(_) => *final(ctx) == old(ctx).placed(
                    s,
                    price,
                    quantity,
                    client_order_id,
                    final(ctx).order.created_at,
                ),
                Err(e) => e is Program && *final(ctx) == *old(ctx),
            },
        },
{
    match check_order_terms(side, price, quantity) {
        Err(e) => Err(InstructionError::Dex(e)),
        Ok(_) => {
            let clock = clock_unix_timestamp();
            place_limit_order_with_clock(ctx, side, price, quantity, client_order_id, clock)
        },
    }
}

/// Deactivates an order on behalf of its owner. Whenever the call fails the
/// record is left as it was.
pub fn cancel_order(ctx: &mut CancelOrder) -> (res: Result<(), DexError>)
    ensures
        res == old(ctx).outcome(),
        *final(ctx) == old(ctx).after(),
{
    if !ctx.order.is_active {
        return Err(DexError::OrderNotActive);
    }
    if ctx.order.owner != ctx.owner {
        return Err(DexError::Unauthorized);
    }
    ctx.order.is_active = false;
    Ok(())
}

/// A side byte other than 0 and 1 is rejected as an invalid side, whatever
/// the price and the quantity are.
pub proof fn lemma_bad_side_is_rejected(side: u8, price: u64, quantity: u64)
    requires
        side != 0,
        side != 1,
    ensures
        spec_check_order_terms(side, price, quantity) == Err::<Side, DexError>(
            DexError::InvalidSide,
        ),
{
}

/// With a valid side, a price of 0 is rejected as an invalid price, and a
/// quantity of 0 at a positive price as an invalid quantity.
pub proof fn lemma_zero_term_is_rejected(side: u8, price: u64, quantity: u64)
    requires
        side == 0 || side == 1,
        price == 0 || quantity == 0,
    ensures
        price == 0 ==> spec_check_order_terms(side, price, quantity) == Err::<Side, DexError>(
            DexError::InvalidPrice,
        ),
        price != 0 ==> spec_check_order_terms(side, price, quantity) == Err::<Side, DexError>(
            DexError::InvalidQuantity,
        ),
{
}

/// Good terms are accepted, and the order recorded for them is active, has
/// all of its quantity remaining, is a buy for side 0 and a sell for side 1,
/// and is well formed.
pub proof fn lemma_placed_order_is_open(
    ctx: PlaceLimitOrder,
    side: u8,
    price: u64,
    quantity: u64,
    client_order_id: u64,
    created_at: i64,
)
    requires
        side == 0 || side == 1,
        price > 0,
        quantity > 0,
    ensures
        spec_check_order_terms(side, price, quantity) == Ok::<Side, DexError>(
            if side == 0 {
                Side::Buy
            } else {
                Side::Sell
            },
        ),
        ({
            let s = spec_check_order_terms(side, price, quantity).unwrap();
            let order = ctx.placed(s, price, quantity, client_order_id, created_at).order;
            &&& order.is_active
            &&& order.remaining == quantity
            &&& order.side == s
            &&& order.well_formed()
        }),
{
}

/// The owner's request on an active order goes through: the order is
/// deactivated and nothing else changes.
pub proof fn lemma_owner_cancels(ctx: CancelOrder)
    requires
        ctx.order.is_active,
        ctx.owner == ctx.order.owner,
    ensures
        ctx.outcome() is Ok,
        !ctx.after().order.is_active,
        ctx.after() == (CancelOrder { order: Order { is_active: false, ..ctx.order }, ..ctx }),
{
}

/// A request on an active order by anyone but its owner is rejected as
/// unauthorized, and the record is left as it was.
pub proof fn lemma_stranger_is_refused(ctx: CancelOrder)
    requires
        ctx.order.is_active,
        ctx.owner != ctx.order.owner,
    ensures
        ctx.outcome() == Err::<(), DexError>(DexError::Unauthorized),
        ctx.after() == ctx,
{
}

/// An order is cancelled at most once: after a cancellation that went
/// through, the next request on the same record is rejected as not active,
/// whoever makes it.
pub proof fn lemma_cancel_only_once(ctx: CancelOrder, next_caller: Address)
    requires
        ctx.outcome() is Ok,
    ensures
        (CancelOrder { order: ctx.after().order, owner: next_caller }).outcome() == Err::<
            (),
            DexError,
        >(DexError::OrderNotActive),
{
}

/// The life of an order: it is placed active, its owner can cancel it, and
/// a cancelled order is closed to every further request.
pub proof fn lemma_order_lifecycle(
    ctx: PlaceLimitOrder,
    side: Side,
    price: u64,
    quantity: u64,
    client_order_id: u64,
    created_at: i64,
    later_caller: Address,
)
    ensures
        ({
            let placed = ctx.placed(side, price, quantity, client_order_id, created_at).order;
            let first = CancelOrder { order: placed, owner: ctx.owner };
            let second = CancelOrder { order: first.after().order, owner: later_caller };
            &&& placed.is_active
            &&& first.outcome() is Ok
            &&& first.after().order == Order { is_active: false, ..placed }
            &&& second.outcome() == Err::<(), DexError>(DexError::OrderNotActive)
            &&& second.after() == second
        }),
{
}

/// No request to cancel revives an order or spoils it: an order that is
/// active afterwards was active before, and a well-formed order stays well
/// formed.
pub proof fn lemma_cancel_keeps_order_sound(ctx: CancelOrder)
    ensures
        ctx.after().order.is_active ==> ctx.order.is_active,
        ctx.order.well_formed() ==> ctx.after().order.well_formed(),
{
}

} // verus!
