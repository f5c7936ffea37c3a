use vstd::prelude::*;

verus! {

/// The contract's persisted configuration singleton.
///
/// Monetary amounts are unsigned 128-bit integers; a decimal fraction such as
/// `royalty` or a member's `portion` is stored as its fixed-point numerator
/// over the denominator 10^18 (one unit equals 10^18 atomics).
#[derive(Clone, Debug, PartialEq)]
pub struct State {
    pub reveal_address: String,
    pub nft_address: String,
    pub owner: String,
    pub denom: String,
    pub fee: u128,
    pub royalty: u128,
    pub total_nft: u128,
    pub check_mint: Vec<bool>,
    pub can_mint: bool,
}

/// One entry of the member list: a recipient address and its decimal share of
/// the collected fee, as fixed-point atomics over 10^18. A portion of zero
/// marks the member as the NFT-pass recipient: it receives the revealed token
/// itself instead of a payment.
#[derive(Clone, Debug, PartialEq)]
pub struct UserInfo {
    pub address: String,
    pub portion: u128,
}

} // verus!
