use vstd::prelude::*;
use anchor_lang::solana_program::program_error::ProgramError;

verus! {

/// `ProgramError` of the ledger's program interface: the reason the host
/// gives when one of its own services fails. This crate never looks inside
/// one; it only hands it on.
#[verifier::external_type_specification]
#[verifier::external_body]
pub struct ExProgramError(anchor_lang::solana_program::program_error::ProgramError);

/// Why an operation on the order registry was rejected.
#[derive(Clone, Copy, Debug, PartialEq, Eq, Structural)]
pub enum DexError {
    /// The side byte is neither 0 nor 1.
    InvalidSide,
    /// The price is 0.
    InvalidPrice,
    /// The quantity is 0.
    InvalidQuantity,
    /// The order has been cancelled already.
    OrderNotActive,
    /// The caller is not the order's owner.
    Unauthorized,
}

impl DexError {
    /// The text that goes with each rejection.
    pub open spec fn spec_message(self) -> Seq<char> {
        match self {
            DexError::InvalidSide => "Invalid side"@,
            DexError::InvalidPrice => "Invalid price"@,
            DexError::InvalidQuantity => "Invalid quantity"@,
            DexError::OrderNotActive => "Order is not active"@,
            DexError::Unauthorized => "Unauthorized cancel attempt"@,
        }
    }

    /// The text that goes with this rejection.
    pub fn message(&self) -> (text: String)
        ensures
            text@ == self.spec_message(),
    {
        match self {
            DexError::InvalidSide => "Invalid side".to_owned(),
            DexError::InvalidPrice => "Invalid price".to_owned(),
            DexError::InvalidQuantity => "Invalid quantity".to_owned(),
            DexError::OrderNotActive => "Order is not active".to_owned(),
            DexError::Unauthorized => "Unauthorized cancel attempt".to_owned(),
        }
    }
}

/// How an operation that also asks the host for something can fail: by a
/// rejection of this crate's own, or by the host's failure.
#[derive(Debug, PartialEq, Eq)]
pub enum InstructionError {
    /// The operation's own checks rejected the input.
    Dex(DexError),
    /// The host could not provide what the operation asked of it.
    Program(ProgramError),
}

} // verus!
