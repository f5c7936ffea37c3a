use vstd::prelude::*;
use crate::state::UserInfo;

verus! {

/// The caller-supplied metadata for the newly minted "revealed" token. It is
/// passed through verbatim as the token's extension data; only `image` is also
/// read, as the token URI.
#[derive(Clone, Debug, PartialEq)]
pub struct HopeMintMsg {
    pub name: Option<String>,
    pub description: Option<String>,
    pub image: Option<String>,
    pub dna: Option<String>,
    pub edition: Option<u64>,
    pub date: Option<u64>,
    pub attributes: Option<Vec<Trait>>,
    pub compiler: Option<String>,
}

/// One attribute of a token's metadata: a named trait and its value.
#[derive(Clone, Debug, PartialEq)]
pub struct Trait {
    pub trait_type: String,
    pub value: String,
}

/// The instantiation request: currency, exact fee, royalty fraction
/// (stored but unused by any operation) and the initial reveal slots.
#[derive(Clone, Debug, PartialEq)]
pub struct InstantiateMsg {
    pub denom: String,
    pub fee: u128,
    pub royalty: u128,
    pub check_mint: Vec<bool>,
}

/// The execution requests the contract accepts.
#[derive(Clone, Debug)]
pub enum ExecuteMsg {
    RevealNft { token_id: String, reveal_id: i32, mint_msg: HopeMintMsg },
    SetRevealAddress { address: String },
    SetNftAddress { address: String },
    SetAdminsList { members: Vec<UserInfo> },
    RunMintFunction { flag: bool },
}

/// The query requests: the full configuration, or the member list.
#[derive(Clone, Debug, PartialEq)]
pub enum QueryMsg {
    GetStateInfo {},
    GetMembers {},
}

} // verus!
