//! A small on-chain state machine governing an NFT "reveal" workflow: it
//! collects a fixed fee, checks a mint gate, marks the chosen reveal slot,
//! splits the payment among a configured member list (or forwards the revealed
//! token to a zero-portion member), and ends the batch with the instruction to
//! mint the revealed counterpart token to the caller.
//!
//! Monetary amounts are plain unsigned 128-bit integers; decimal fractions are
//! fixed-point numerators over 10^18. The host (storage, address validation,
//! message encoding) stays outside; every operation here takes the persisted
//! state by reference and returns its outbound instructions as values.

pub mod contract;
pub mod error;
pub mod funds;
pub mod instruction;
pub mod msg;
pub mod portion;
pub mod state;
pub mod token;
