use vstd::prelude::*;

verus! {

/// The closed set of failures an operation can return. Every error aborts the
/// whole invocation: no state is changed and no instruction is emitted.
#[derive(Clone, Copy, Debug, PartialEq, Eq, Structural)]
pub enum ContractError {
    /// An address handed to a setter failed the host's format validation.
    InvalidAddress {},
    /// The caller of an owner-only operation is not the stored owner.
    Unauthorized {},
    /// A reveal was invoked against the wrong collection contract.
    WrongNftContract {},
    /// The payment attached to a reveal differs from the configured fee.
    Notenough {},
    /// The mint gate is switched off.
    CannotMint {},
    /// An escrow was touched before its expiry.
    NotExpired {},
}

} // verus!
