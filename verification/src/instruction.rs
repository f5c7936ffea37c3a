use vstd::prelude::*;
use crate::msg::HopeMintMsg;

verus! {

/// A fungible amount of a named currency, as attached to an invocation or
/// emitted in a payment instruction.
#[derive(Clone, Debug, PartialEq)]
pub struct Coin {
    pub denom: String,
    pub amount: u128,
}

/// One outbound instruction of a successful reveal, executed by the host
/// atomically together with the state commit.
#[derive(Clone, Debug, PartialEq)]
pub enum Instruction {
    /// Move an existing token to a new owner at the collection contract.
    TransferNft { contract_addr: String, recipient: String, token_id: String },
    /// Pay an address an amount in a given currency.
    Send { to_address: String, denom: String, amount: u128 },
    /// Mint a new token at the reveal contract, with owner, URI and metadata.
    MintReveal {
        contract_addr: String,
        token_id: String,
        owner: String,
        token_uri: Option<String>,
        extension: HopeMintMsg,
    },
}

} // verus!
