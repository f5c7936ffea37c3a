use vstd::prelude::*;
use crate::error::ContractError;
use crate::funds::{attached_amount, spec_attached_amount};
use crate::instruction::{Coin, Instruction};
use crate::msg::{ExecuteMsg, HopeMintMsg, InstantiateMsg};
use crate::portion::{mul_portion, spec_portion_amount};
use crate::state::{State, UserInfo};
use crate::token::{reveal_token_id, spec_reveal_token_id};

verus! {

/// A reveal is accepted exactly when the attached payment equals the
/// configured fee and the mint gate is open.
pub open spec fn reveal_accepted(state: State, funds: Seq<Coin>) -> bool {
    spec_attached_amount(funds, state.denom@) == state.fee && state.can_mint
}

/// A successful reveal increments the token counter by one, clears the chosen
/// reveal slot, and touches nothing else.
pub open spec fn reveal_state_change(s0: State, s1: State, reveal_id: int) -> bool {
    &&& s1.total_nft == s0.total_nft + 1
    &&& s1.check_mint@ == s0.check_mint@.update(reveal_id - 1, false)
    &&& s1.reveal_address == s0.reveal_address
    &&& s1.nft_address == s0.nft_address
    &&& s1.owner == s0.owner
    &&& s1.denom == s0.denom
    &&& s1.fee == s0.fee
    &&& s1.royalty == s0.royalty
    &&& s1.can_mint == s0.can_mint
}

/// The instruction owed to one member: the NFT-pass recipient (portion zero)
/// receives the revealed token itself; every other member is paid its floored
/// share of the fee in the configured currency.
pub open spec fn instr_for_member(
    ins: Instruction,
    state: State,
    token_id: Seq<char>,
    m: UserInfo,
) -> bool {
    if m.portion == 0 {
        ins matches Instruction::TransferNft { contract_addr, recipient, token_id: tid }
            && contract_addr@ == state.nft_address@ && recipient@ == m.address@ && tid@ == token_id
    } else {
        ins matches Instruction::Send { to_address, denom, amount }
            && to_address@ == m.address@ && denom@ == state.denom@ && amount
            == spec_portion_amount(state.fee as int, m.portion as int)
    }
}

/// The final instruction of a successful reveal: mint the revealed counterpart
/// token to the caller at the reveal contract, with the caller-supplied
/// metadata stored verbatim and its image as the token URI.
pub open spec fn mint_instr_for(
    ins: Instruction,
    state: State,
    reveal_id: int,
    sender: Seq<char>,
    mint_msg: HopeMintMsg,
) -> bool {
    ins matches Instruction::MintReveal { contract_addr, token_id, owner, token_uri, extension }
        && contract_addr@ == state.reveal_address@ && token_id@ == spec_reveal_token_id(reveal_id)
        && owner@ == sender && token_uri == mint_msg.image && extension == mint_msg
}

/// Everything a reveal invocation guarantees: each rejection comes exactly on
/// its input class and leaves the state untouched; success comes exactly on
/// accepted invocations and yields one instruction per member, in member-list
/// order, with the mint instruction last.
pub open spec fn reveal_post(
    s0: State,
    s1: State,
    members: Seq<UserInfo>,
    sender: Seq<char>,
    funds: Seq<Coin>,
    token_id: Seq<char>,
    reveal_id: int,
    mint_msg: HopeMintMsg,
    res: Result<Vec<Instruction>, ContractError>,
) -> bool {
    &&& spec_attached_amount(funds, s0.denom@) != s0.fee ==> res == Err::<
        Vec<Instruction>,
        ContractError,
    >(ContractError::Notenough {}) && s1 == s0
    &&& spec_attached_amount(funds, s0.denom@) == s0.fee && !s0.can_mint ==> res == Err::<
        Vec<Instruction>,
        ContractError,
    >(ContractError::CannotMint {}) && s1 == s0
    &&& res is Ok <==> reveal_accepted(s0, funds)
    &&& res matches Ok(ins) ==> {
        &&& reveal_state_change(s0, s1, reveal_id)
        &&& ins@.len() == members.len() + 1
        &&& forall|j: int|
            0 <= j < members.len() ==> instr_for_member(
                #[trigger] ins@[j],
                s0,
                token_id,
                members[j],
            )
        &&& mint_instr_for(ins@[members.len() as int], s0, reveal_id, sender, mint_msg)
    }
}

/// What replacing the member list guarantees: a non-owner caller gets
/// Unauthorized and the list is untouched; the owner replaces the whole list
/// and no instruction is emitted.
pub open spec fn set_members_post(
    state: State,
    m0: Seq<UserInfo>,
    m1: Seq<UserInfo>,
    sender: Seq<char>,
    new_members: Seq<UserInfo>,
    res: Result<Vec<Instruction>, ContractError>,
) -> bool {
    &&& sender != state.owner@ ==> res == Err::<Vec<Instruction>, ContractError>(
        ContractError::Unauthorized {},
    ) && m1 == m0
    &&& sender == state.owner@ ==> (res matches Ok(ins) && ins@.len() == 0 && m1 == new_members)
}

/// What toggling the mint gate guarantees: a non-owner caller gets
/// Unauthorized and nothing changes; the owner sets the one flag and nothing
/// else.
pub open spec fn run_mint_post(
    s0: State,
    s1: State,
    sender: Seq<char>,
    flag: bool,
    res: Result<Vec<Instruction>, ContractError>,
) -> bool {
    &&& sender != s0.owner@ ==> res == Err::<Vec<Instruction>, ContractError>(
        ContractError::Unauthorized {},
    ) && s1 == s0
    &&& sender == s0.owner@ ==> (res matches Ok(ins) && ins@.len() == 0 && s1 == (State {
        can_mint: flag,
        ..s0
    }))
}

/// What setting the reveal-contract address guarantees: an address the host
/// rejected fails first, then a non-owner caller gets Unauthorized; in either
/// case nothing changes. The owner sets the one field and nothing else.
pub open spec fn set_reveal_address_post(
    s0: State,
    s1: State,
    sender: Seq<char>,
    address: String,
    address_valid: bool,
    res: Result<Vec<Instruction>, ContractError>,
) -> bool {
    &&& !address_valid ==> res == Err::<Vec<Instruction>, ContractError>(
        ContractError::InvalidAddress {},
    ) && s1 == s0
    &&& address_valid && sender != s0.owner@ ==> res == Err::<Vec<Instruction>, ContractError>(
        ContractError::Unauthorized {},
    ) && s1 == s0
    &&& address_valid && sender == s0.owner@ ==> (res matches Ok(ins) && ins@.len() == 0 && s1
        == (State { reveal_address: address, ..s0 }))
}

/// What setting the collection-contract address guarantees; as for the reveal
/// address, on the other field.
pub open spec fn set_nft_address_post(
    s0: State,
    s1: State,
    sender: Seq<char>,
    address: String,
    address_valid: bool,
    res: Result<Vec<Instruction>, ContractError>,
) -> bool {
    &&& !address_valid ==> res == Err::<Vec<Instruction>, ContractError>(
        ContractError::InvalidAddress {},
    ) && s1 == s0
    &&& address_valid && sender != s0.owner@ ==> res == Err::<Vec<Instruction>, ContractError>(
        ContractError::Unauthorized {},
    ) && s1 == s0
    &&& address_valid && sender == s0.owner@ ==> (res matches Ok(ins) && ins@.len() == 0 && s1
        == (State { nft_address: address, ..s0 }))
}

/// Clones an optional string, field for field.
fn clone_opt_string(s: &Option<String>) -> (r: Option<String>)
    ensures
        r == *s,
{
    match s {
        Option::None => Option::None,
        Option::Some(x) => Option::Some(x.clone()),
    }
}

/// Creates the initial configuration: the caller becomes the owner, the
/// counter starts at zero, the mint gate starts open, and the two contract
/// addresses start as fixed placeholders.
pub fn instantiate(sender: String, msg: InstantiateMsg) -> (state: State)
    ensures
        state.reveal_address@ == "reveal"@,
        state.nft_address@ == "nft"@,
        state.owner == sender,
        state.denom == msg.denom,
        state.fee == msg.fee,
        state.royalty == msg.royalty,
        state.total_nft == 0,
        state.check_mint == msg.check_mint,
        state.can_mint,
{
    State {
        reveal_address: "reveal".to_owned(),
        nft_address: "nft".to_owned(),
        owner: sender,
        denom: msg.denom,
        fee: msg.fee,
        royalty: msg.royalty,
        total_nft: 0,
        check_mint: msg.check_mint,
        can_mint: true,
    }
}

/// The reveal-and-distribute transaction. Validates the attached payment and
/// the mint gate, marks the slot revealed, counts the mint, and returns the
/// outbound instruction batch: one payment or NFT transfer per member, then
/// the mint of the revealed token to the caller.
pub fn execute_reveal_nft(
    state: &mut State,
    members: &Vec<UserInfo>,
    sender: &String,
    funds: &Vec<Coin>,
    token_id: String,
    reveal_id: i32,
    mint_msg: HopeMintMsg,
) -> (res: Result<Vec<Instruction>, ContractError>)
    requires
        1 <= reveal_id <= old(state).check_mint@.len(),
        old(state).total_nft < u128::MAX,
        forall|j: int|
            0 <= j < members@.len() ==> spec_portion_amount(
                old(state).fee as int,
                (#[trigger] members@[j]).portion as int,
            ) <= u128::MAX,
    ensures
        reveal_post(
            *old(state),
            *final(state),
            members@,
            sender@,
            funds@,
            token_id@,
            reveal_id as int,
            mint_msg,
            res,
        ),
{
    let amount = attached_amount(funds, &state.denom);

    if amount != state.fee {
        return Err(ContractError::Notenough {});
    }
    if state.can_mint == false {
        return Err(ContractError::CannotMint {});
    }

    state.total_nft = state.total_nft + 1;
    let idx = (reveal_id - 1) as usize;
    state.check_mint[idx] = false;

    let mut messages: Vec<Instruction> = Vec::new();
    let mut i: usize = 0;
    while i < members.len()
        invariant
            i <= members@.len(),
            messages@.len() == i,
            amount == old(state).fee,
            state.nft_address == old(state).nft_address,
            state.denom == old(state).denom,
            forall|j: int|
                0 <= j < members@.len() ==> spec_portion_amount(
                    old(state).fee as int,
                    (#[trigger] members@[j]).portion as int,
                ) <= u128::MAX,
            forall|j: int|
                0 <= j < i ==> instr_for_member(
                    #[trigger] messages@[j],
                    *old(state),
                    token_id@,
                    members@[j],
                ),
        decreases members@.len() - i,
    {
        let user = &members[i];
        if user.portion == 0 {
            messages.push(
                Instruction::TransferNft {
                    contract_addr: state.nft_address.clone(),
                    recipient: user.address.clone(),
                    token_id: token_id.clone(),
                },
            );
        } else {
            messages.push(
                Instruction::Send {
                    to_address: user.address.clone(),
                    denom: state.denom.clone(),
                    amount: mul_portion(amount, user.portion),
                },
            );
        }
        i += 1;
    }

    let token_uri = clone_opt_string(&mint_msg.image);
    messages.push(
        Instruction::MintReveal {
            contract_addr: state.reveal_address.clone(),
            token_id: reveal_token_id(reveal_id),
            owner: sender.clone(),
            token_uri,
            extension: mint_msg,
        },
    );
    Ok(messages)
}

/// Replaces the whole member list. Owner-only; a rejected caller changes
/// nothing.
pub fn execute_set_members(
    state: &State,
    members: &mut Vec<UserInfo>,
    sender: &String,
    new_members: Vec<UserInfo>,
) -> (res: Result<Vec<Instruction>, ContractError>)
    ensures
        set_members_post(*state, old(members)@, final(members)@, sender@, new_members@, res),
{
    if !sender.eq(&state.owner) {
        return Err(ContractError::Unauthorized {});
    }
    *members = new_members;
    Ok(Vec::new())
}

/// Sets the mint gate. Owner-only; a rejected caller changes nothing.
pub fn execute_run_mint(state: &mut State, sender: &String, flag: bool) -> (res: Result<
    Vec<Instruction>,
    ContractError,
>)
    ensures
        run_mint_post(*old(state), *final(state), sender@, flag, res),
{
    if !sender.eq(&state.owner) {
        return Err(ContractError::Unauthorized {});
    }
    state.can_mint = flag;
    Ok(Vec::new())
}

/// Sets the reveal-contract address. The address must have passed the host's
/// format validation; owner-only; a rejected caller changes nothing.
pub fn execute_set_address(
    state: &mut State,
    sender: &String,
    address: String,
    address_valid: bool,
) -> (res: Result<Vec<Instruction>, ContractError>)
    ensures
        set_reveal_address_post(*old(state), *final(state), sender@, address, address_valid, res),
{
    if !address_valid {
        return Err(ContractError::InvalidAddress {});
    }
    if !sender.eq(&state.owner) {
        return Err(ContractError::Unauthorized {});
    }
    state.reveal_address = address;
    Ok(Vec::new())
}

/// Sets the collection-contract address. The address must have passed the
/// host's format validation; owner-only; a rejected caller changes nothing.
pub fn execute_set_nft_address(
    state: &mut State,
    sender: &String,
    address: String,
    address_valid: bool,
) -> (res: Result<Vec<Instruction>, ContractError>)
    ensures
        set_nft_address_post(*old(state), *final(state), sender@, address, address_valid, res),
{
    if !address_valid {
        return Err(ContractError::InvalidAddress {});
    }
    if !sender.eq(&state.owner) {
        return Err(ContractError::Unauthorized {});
    }
    state.nft_address = address;
    Ok(Vec::new())
}

/// Dispatches one execution request to its handler. `address_valid` reports
/// the host's format validation of the address carried by a set-address
/// request; every other request ignores it.
pub fn execute(
    state: &mut State,
    members: &mut Vec<UserInfo>,
    sender: &String,
    funds: &Vec<Coin>,
    address_valid: bool,
    msg: ExecuteMsg,
) -> (res: Result<Vec<Instruction>, ContractError>)
    requires
        msg matches ExecuteMsg::RevealNft { reveal_id, .. } ==> 1 <= reveal_id <= old(
            state,
        ).check_mint@.len() && old(state).total_nft < u128::MAX,
        msg matches ExecuteMsg::RevealNft { .. } ==> forall|j: int|
            0 <= j < old(members)@.len() ==> spec_portion_amount(
                old(state).fee as int,
                (#[trigger] old(members)@[j]).portion as int,
            ) <= u128::MAX,
    ensures
        msg matches ExecuteMsg::RevealNft { token_id, reveal_id, mint_msg } ==> (reveal_post(
            *old(state),
            *final(state),
            old(members)@,
            sender@,
            funds@,
            token_id@,
            reveal_id as int,
            mint_msg,
            res,
        ) && final(members)@ == old(members)@),
        msg matches ExecuteMsg::SetAdminsList { members: new_members } ==> (set_members_post(
            *old(state),
            old(members)@,
            final(members)@,
            sender@,
            new_members@,
            res,
        ) && *final(state) == *old(state)),
        msg matches ExecuteMsg::SetRevealAddress { address } ==> (set_reveal_address_post(
            *old(state),
            *final(state),
            sender@,
            address,
            address_valid,
            res,
        ) && final(members)@ == old(members)@),
        msg matches ExecuteMsg::SetNftAddress { address } ==> (set_nft_address_post(
            *old(state),
            *final(state),
            sender@,
            address,
            address_valid,
            res,
        ) && final(members)@ == old(members)@),
        msg matches ExecuteMsg::RunMintFunction { flag } ==> (run_mint_post(
            *old(state),
            *final(state),
            sender@,
            flag,
            res,
        ) && final(members)@ == old(members)@),
{
    match msg {
        ExecuteMsg::RevealNft { token_id, reveal_id, mint_msg } => execute_reveal_nft(
            state,
            members,
            sender,
            funds,
            token_id,
            reveal_id,
            mint_msg,
        ),
        ExecuteMsg::SetAdminsList { members: new_members } => execute_set_members(
            state,
            members,
            sender,
            new_members,
        ),
        ExecuteMsg::SetRevealAddress { address } => execute_set_address(
            state,
            sender,
            address,
            address_valid,
        ),
        ExecuteMsg::SetNftAddress { address } => execute_set_nft_address(
            state,
            sender,
            address,
            address_valid,
        ),
        ExecuteMsg::RunMintFunction { flag } => execute_run_mint(state, sender, flag),
    }
}

/// Law: a successful reveal leaves the fee, the currency and the mint gate
/// unchanged, so the very same payment is accepted again at once. Repeated
/// reveals of one slot are not blocked, and each success adds exactly one to
/// the counter.
pub proof fn lemma_reveal_repeatable(
    s0: State,
    s1: State,
    members: Seq<UserInfo>,
    sender: Seq<char>,
    funds: Seq<Coin>,
    token_id: Seq<char>,
    reveal_id: int,
    mint_msg: HopeMintMsg,
    res: Result<Vec<Instruction>, ContractError>,
)
    requires
        reveal_post(s0, s1, members, sender, funds, token_id, reveal_id, mint_msg, res),
        res is Ok,
    ensures
        reveal_accepted(s1, funds),
        s1.total_nft == s0.total_nft + 1,
{
}

} // verus!
