use clob_dex::address::{Address, ADDRESS_BYTES};
use clob_dex::error::DexError;
use clob_dex::state::{Market, Order, Side};

#[test]
fn side_wire_values_are_zero_and_one() {
    assert_eq!(Side::Buy.to_u8(), 0);
    assert_eq!(Side::Sell.to_u8(), 1);
    assert_eq!(Side::from_u8(0), Some(Side::Buy));
    assert_eq!(Side::from_u8(1), Some(Side::Sell));
}

#[test]
fn side_rejects_every_other_byte() {
    for byte in 2u8..=255 {
        assert_eq!(Side::from_u8(byte), None);
    }
}

#[test]
fn record_field_sizes() {
    assert_eq!(Market::LEN, 72);
    assert_eq!(Order::LEN, 107);
    assert_eq!(ADDRESS_BYTES, 32);
}

#[test]
fn dex_error_messages() {
    assert_eq!(DexError::InvalidSide.message(), "Invalid side");
    assert_eq!(DexError::InvalidPrice.message(), "Invalid price");
    assert_eq!(DexError::InvalidQuantity.message(), "Invalid quantity");
    assert_eq!(DexError::OrderNotActive.message(), "Order is not active");
    assert_eq!(DexError::Unauthorized.message(), "Unauthorized cancel attempt");
}

#[test]
fn address_keeps_its_bytes() {
    let mut bytes = [0u8; 32];
    for (i, b) in bytes.iter_mut().enumerate() {
        *b = i as u8;
    }
    let a = Address::new(bytes);
    assert_eq!(a.to_bytes(), bytes);
    assert_eq!(a.to_vec(), bytes.to_vec());
    assert_eq!(Address::from_slice(&bytes), Some(a));
}

#[test]
fn address_from_slice_wants_exactly_32_bytes() {
    assert_eq!(Address::from_slice(&[]), None);
    assert_eq!(Address::from_slice(&[1u8; 31]), None);
    assert_eq!(Address::from_slice(&[1u8; 33]), None);
    assert_eq!(Address::from_slice(&[1u8; 32]), Some(Address::new([1u8; 32])));
}

#[test]
fn address_equality_looks_at_every_byte() {
    let a = Address::new([5u8; 32]);
    assert!(a == Address::new([5u8; 32]));
    for i in 0..32 {
        let mut bytes = [5u8; 32];
        bytes[i] = 6;
        assert!(a != Address::new(bytes));
    }
}
