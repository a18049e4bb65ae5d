use anchor_lang::prelude::ProgramError;
use clob_dex::address::Address;
use clob_dex::error::{DexError, InstructionError};
use clob_dex::instructions::{
    cancel_order, check_order_terms, init_market, place_limit_order,
    place_limit_order_with_clock,
    CancelOrder, InitMarket, PlaceLimitOrder,
};
use clob_dex::state::{Market, Order, Side};

fn key(fill: u8) -> Address {
    Address::new([fill; 32])
}

fn blank_order() -> Order {
    Order {
        market: key(0),
        owner: key(0),
        side: Side::Buy,
        price: 0,
        quantity: 0,
        remaining: 0,
        client_order_id: 0,
        is_active: false,
        bump: 0,
        created_at: 0,
    }
}

fn place_ctx() -> PlaceLimitOrder {
    PlaceLimitOrder { market: key(7), order: blank_order(), owner: key(8), order_bump: 254 }
}

fn live_order() -> Order {
    Order {
        market: key(7),
        owner: key(8),
        side: Side::Sell,
        price: 1_500,
        quantity: 40,
        remaining: 40,
        client_order_id: 99,
        is_active: true,
        bump: 254,
        created_at: 1_700_000_000,
    }
}

fn init_ctx() -> InitMarket {
    InitMarket {
        market: Market { base_mint: key(0), quote_mint: key(0), tick_size: 0 },
        base_mint: key(1),
        quote_mint: key(2),
        authority: key(3),
    }
}

#[test]
fn init_market_records_both_mints_and_tick_size() {
    let mut ctx = init_ctx();
    assert_eq!(init_market(&mut ctx, 25), Ok(()));
    assert_eq!(ctx.market, Market { base_mint: key(1), quote_mint: key(2), tick_size: 25 });
    assert_eq!(ctx.base_mint, key(1));
    assert_eq!(ctx.quote_mint, key(2));
    assert_eq!(ctx.authority, key(3));
}

#[test]
fn init_market_accepts_tick_size_zero_and_max() {
    let mut ctx = init_ctx();
    assert_eq!(init_market(&mut ctx, 0), Ok(()));
    assert_eq!(ctx.market.tick_size, 0);
    assert_eq!(init_market(&mut ctx, u64::MAX), Ok(()));
    assert_eq!(ctx.market.tick_size, u64::MAX);
}

#[test]
fn init_market_does_not_tie_a_pair_to_one_record() {
    let mut first = init_ctx();
    let mut second = init_ctx();
    assert_eq!(init_market(&mut first, 1), Ok(()));
    assert_eq!(init_market(&mut second, 1), Ok(()));
    assert_eq!(first.market, second.market);
}

#[test]
fn check_order_terms_reads_the_side() {
    assert_eq!(check_order_terms(0, 1, 1), Ok(Side::Buy));
    assert_eq!(check_order_terms(1, 1, 1), Ok(Side::Sell));
    assert_eq!(check_order_terms(1, u64::MAX, u64::MAX), Ok(Side::Sell));
}

#[test]
fn check_order_terms_reports_the_first_fault() {
    assert_eq!(check_order_terms(2, 1, 1), Err(DexError::InvalidSide));
    assert_eq!(check_order_terms(255, 0, 0), Err(DexError::InvalidSide));
    assert_eq!(check_order_terms(0, 0, 1), Err(DexError::InvalidPrice));
    assert_eq!(check_order_terms(1, 0, 0), Err(DexError::InvalidPrice));
    assert_eq!(check_order_terms(1, 1, 0), Err(DexError::InvalidQuantity));
}

#[test]
fn place_limit_order_with_clock_fills_the_record() {
    let mut ctx = place_ctx();
    let res = place_limit_order_with_clock(&mut ctx, 1, 1_500, 40, 99, Ok(1_700_000_000));
    assert_eq!(res, Ok(()));
    assert_eq!(ctx.order, live_order());
    assert_eq!(ctx.market, key(7));
    assert_eq!(ctx.owner, key(8));
    assert_eq!(ctx.order_bump, 254);
}

#[test]
fn place_limit_order_with_clock_maps_side_zero_to_buy() {
    let mut ctx = place_ctx();
    assert_eq!(place_limit_order_with_clock(&mut ctx, 0, 3, 5, 1, Ok(-12)), Ok(()));
    assert_eq!(ctx.order.side, Side::Buy);
    assert_eq!(ctx.order.remaining, 5);
    assert_eq!(ctx.order.quantity, 5);
    assert_eq!(ctx.order.price, 3);
    assert!(ctx.order.is_active);
    assert_eq!(ctx.order.created_at, -12);
    assert_eq!(ctx.order.client_order_id, 1);
}

#[test]
fn place_limit_order_with_clock_overwrites_whatever_the_record_held() {
    let mut ctx = place_ctx();
    ctx.order = live_order();
    ctx.order.is_active = false;
    assert_eq!(place_limit_order_with_clock(&mut ctx, 0, 1, 2, 3, Ok(4)), Ok(()));
    assert_eq!(
        ctx.order,
        Order {
            market: key(7),
            owner: key(8),
            side: Side::Buy,
            price: 1,
            quantity: 2,
            remaining: 2,
            client_order_id: 3,
            is_active: true,
            bump: 254,
            created_at: 4,
        }
    );
}

#[test]
fn place_limit_order_with_clock_rejects_an_invalid_side() {
    for side in [2u8, 3, 128, 255] {
        let mut ctx = place_ctx();
        assert_eq!(
            place_limit_order_with_clock(&mut ctx, side, 10, 10, 1, Ok(5)),
            Err(InstructionError::Dex(DexError::InvalidSide))
        );
        assert_eq!(ctx, place_ctx());
    }
}

#[test]
fn place_limit_order_with_clock_rejects_a_zero_price() {
    let mut ctx = place_ctx();
    assert_eq!(
        place_limit_order_with_clock(&mut ctx, 0, 0, 10, 1, Ok(5)),
        Err(InstructionError::Dex(DexError::InvalidPrice))
    );
    assert_eq!(ctx, place_ctx());
    assert_eq!(
        place_limit_order_with_clock(&mut ctx, 1, 0, 0, 1, Ok(5)),
        Err(InstructionError::Dex(DexError::InvalidPrice))
    );
    assert_eq!(ctx, place_ctx());
}

#[test]
fn place_limit_order_with_clock_rejects_a_zero_quantity() {
    let mut ctx = place_ctx();
    assert_eq!(
        place_limit_order_with_clock(&mut ctx, 1, 10, 0, 1, Ok(5)),
        Err(InstructionError::Dex(DexError::InvalidQuantity))
    );
    assert_eq!(ctx, place_ctx());
}

#[test]
fn place_limit_order_with_clock_hands_on_the_failure_of_the_clock() {
    let mut ctx = place_ctx();
    assert_eq!(
        place_limit_order_with_clock(&mut ctx, 1, 10, 10, 1, Err(ProgramError::Custom(77))),
        Err(InstructionError::Program(ProgramError::Custom(77)))
    );
    assert_eq!(ctx, place_ctx());
}

#[test]
fn place_limit_order_with_clock_judges_the_terms_before_the_clock() {
    let mut ctx = place_ctx();
    assert_eq!(
        place_limit_order_with_clock(&mut ctx, 7, 10, 10, 1, Err(ProgramError::UnsupportedSysvar)),
        Err(InstructionError::Dex(DexError::InvalidSide))
    );
    assert_eq!(
        place_limit_order_with_clock(&mut ctx, 1, 10, 0, 1, Err(ProgramError::UnsupportedSysvar)),
        Err(InstructionError::Dex(DexError::InvalidQuantity))
    );
    assert_eq!(ctx, place_ctx());
}

#[test]
fn place_limit_order_rejects_bad_terms_before_it_asks_for_the_time() {
    let mut ctx = place_ctx();
    assert_eq!(
        place_limit_order(&mut ctx, 2, 10, 10, 1),
        Err(InstructionError::Dex(DexError::InvalidSide))
    );
    assert_eq!(
        place_limit_order(&mut ctx, 0, 0, 10, 1),
        Err(InstructionError::Dex(DexError::InvalidPrice))
    );
    assert_eq!(
        place_limit_order(&mut ctx, 1, 10, 0, 1),
        Err(InstructionError::Dex(DexError::InvalidQuantity))
    );
    assert_eq!(ctx, place_ctx());
}

#[test]
fn place_limit_order_away_from_the_ledger_has_no_clock() {
    let mut ctx = place_ctx();
    assert_eq!(
        place_limit_order(&mut ctx, 1, 10, 10, 1),
        Err(InstructionError::Program(ProgramError::UnsupportedSysvar))
    );
    assert_eq!(ctx, place_ctx());
}

#[test]
fn cancel_order_by_the_owner_deactivates_only() {
    let mut ctx = CancelOrder { order: live_order(), owner: key(8) };
    assert_eq!(cancel_order(&mut ctx), Ok(()));
    let mut expected = live_order();
    expected.is_active = false;
    assert_eq!(ctx.order, expected);
    assert_eq!(ctx.order.remaining, 40);
    assert_eq!(ctx.owner, key(8));
}

#[test]
fn cancel_order_by_a_stranger_is_unauthorized() {
    let mut ctx = CancelOrder { order: live_order(), owner: key(9) };
    assert_eq!(cancel_order(&mut ctx), Err(DexError::Unauthorized));
    assert_eq!(ctx, CancelOrder { order: live_order(), owner: key(9) });
}

#[test]
fn cancel_order_tells_owners_apart_by_every_byte() {
    let mut bytes = [8u8; 32];
    bytes[31] = 9;
    let mut ctx = CancelOrder { order: live_order(), owner: Address::new(bytes) };
    assert_eq!(cancel_order(&mut ctx), Err(DexError::Unauthorized));
    assert!(ctx.order.is_active);
}

#[test]
fn cancel_order_twice_is_rejected_the_second_time() {
    let mut ctx = CancelOrder { order: live_order(), owner: key(8) };
    assert_eq!(cancel_order(&mut ctx), Ok(()));
    let after_first = ctx;
    assert_eq!(cancel_order(&mut ctx), Err(DexError::OrderNotActive));
    assert_eq!(ctx, after_first);
}

#[test]
fn cancel_order_reports_an_inactive_order_before_a_wrong_caller() {
    let mut order = live_order();
    order.is_active = false;
    let mut ctx = CancelOrder { order, owner: key(9) };
    assert_eq!(cancel_order(&mut ctx), Err(DexError::OrderNotActive));
    assert_eq!(ctx, CancelOrder { order, owner: key(9) });
}

#[test]
fn placed_order_can_be_cancelled_by_its_owner_once() {
    let mut place = place_ctx();
    assert_eq!(place_limit_order_with_clock(&mut place, 0, 10, 20, 30, Ok(40)), Ok(()));
    let mut cancel = CancelOrder { order: place.order, owner: place.owner };
    assert_eq!(cancel_order(&mut cancel), Ok(()));
    assert!(!cancel.order.is_active);
    assert_eq!(cancel.order.remaining, 20);
    assert_eq!(cancel_order(&mut cancel), Err(DexError::OrderNotActive));
}
