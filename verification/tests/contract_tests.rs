use nft_reveal::contract::{execute, execute_reveal_nft, instantiate};
use nft_reveal::error::ContractError;
use nft_reveal::instruction::{Coin, Instruction};
use nft_reveal::msg::{ExecuteMsg, HopeMintMsg, InstantiateMsg, QueryMsg, Trait};
use nft_reveal::state::{State, UserInfo};

// One percent of the fee, as fixed-point atomics over 10^18.
const ONE_PERCENT: u128 = 10_000_000_000_000_000;

fn sample_mint_msg() -> HopeMintMsg {
    HopeMintMsg {
        name: Some("name".to_string()),
        description: Some("mint".to_string()),
        image: Some("image".to_string()),
        dna: Some("dna".to_string()),
        edition: Some(1),
        date: Some(cosmwasm_std::testing::mock_env().block.time.seconds()),
        attributes: Some(vec![Trait {
            trait_type: "type".to_string(),
            value: "value".to_string(),
        }]),
        compiler: Some("compiler".to_string()),
    }
}

#[test]
fn buy_token() {
    let instantiate_msg = InstantiateMsg {
        denom: "ujuno".to_string(),
        fee: 3000000,
        royalty: 5 * ONE_PERCENT,
        check_mint: vec![true, true, true, true, true],
    };
    let mut state = instantiate("creator".to_string(), instantiate_msg);
    let mut members: Vec<UserInfo> = vec![];
    let creator = "creator".to_string();
    let no_funds: Vec<Coin> = vec![];

    let res = execute(
        &mut state,
        &mut members,
        &creator,
        &no_funds,
        true,
        ExecuteMsg::SetNftAddress { address: "nft_address".to_string() },
    )
    .unwrap();
    assert_eq!(res.len(), 0);

    let res = execute(
        &mut state,
        &mut members,
        &creator,
        &no_funds,
        true,
        ExecuteMsg::SetRevealAddress { address: "reveal_address".to_string() },
    )
    .unwrap();
    assert_eq!(res.len(), 0);

    assert_eq!(
        state,
        State {
            reveal_address: "reveal_address".to_string(),
            nft_address: "nft_address".to_string(),
            owner: "creator".to_string(),
            denom: "ujuno".to_string(),
            fee: 3000000,
            royalty: 5 * ONE_PERCENT,
            total_nft: 0,
            check_mint: vec![true, true, true, true, true],
            can_mint: true,
        }
    );

    execute(
        &mut state,
        &mut members,
        &creator,
        &no_funds,
        true,
        ExecuteMsg::SetAdminsList {
            members: vec![
                UserInfo { address: "mint_pass".to_string(), portion: 0 },
                UserInfo { address: "user1".to_string(), portion: ONE_PERCENT },
                UserInfo { address: "user2".to_string(), portion: 2 * ONE_PERCENT },
            ],
        },
    )
    .unwrap();

    let mint_msg = sample_mint_msg();

    execute(
        &mut state,
        &mut members,
        &creator,
        &no_funds,
        true,
        ExecuteMsg::RunMintFunction { flag: false },
    )
    .unwrap();
    execute(
        &mut state,
        &mut members,
        &creator,
        &no_funds,
        true,
        ExecuteMsg::RunMintFunction { flag: true },
    )
    .unwrap();

    let funds = vec![Coin { denom: "ujuno".to_string(), amount: 3000000 }];
    let res = execute(
        &mut state,
        &mut members,
        &creator,
        &funds,
        true,
        ExecuteMsg::RevealNft {
            token_id: "hope.1".to_string(),
            reveal_id: 5,
            mint_msg: mint_msg.clone(),
        },
    )
    .unwrap();
    assert_eq!(res.len(), 4);
    assert_eq!(
        res[0],
        Instruction::TransferNft {
            contract_addr: "nft_address".to_string(),
            recipient: "mint_pass".to_string(),
            token_id: "hope.1".to_string(),
        }
    );
    assert_eq!(
        res[1],
        Instruction::Send {
            to_address: "user1".to_string(),
            denom: "ujuno".to_string(),
            amount: 30000,
        }
    );
    assert_eq!(
        res[2],
        Instruction::Send {
            to_address: "user2".to_string(),
            denom: "ujuno".to_string(),
            amount: 60000,
        }
    );
    assert_eq!(
        res[3],
        Instruction::MintReveal {
            contract_addr: "reveal_address".to_string(),
            token_id: "Reveal.5".to_string(),
            owner: "creator".to_string(),
            token_uri: Some("image".to_string()),
            extension: mint_msg,
        }
    );
    assert_eq!(state.total_nft, 1);
    assert_eq!(state.check_mint, vec![true, true, true, true, false]);
}

fn fresh_contract() -> (State, Vec<UserInfo>) {
    let state = instantiate(
        "creator".to_string(),
        InstantiateMsg {
            denom: "ujuno".to_string(),
            fee: 3000000,
            royalty: 0,
            check_mint: vec![true; 5],
        },
    );
    let members = vec![
        UserInfo { address: "mint_pass".to_string(), portion: 0 },
        UserInfo { address: "user1".to_string(), portion: ONE_PERCENT },
    ];
    (state, members)
}

#[test]
fn wrong_payment_is_rejected_unchanged() {
    let (mut state, members) = fresh_contract();
    let before = state.clone();
    // Underpayment, overpayment, and a missing denomination all fail alike.
    for funds in [
        vec![Coin { denom: "ujuno".to_string(), amount: 2999999 }],
        vec![Coin { denom: "ujuno".to_string(), amount: 3000001 }],
        vec![Coin { denom: "uatom".to_string(), amount: 3000000 }],
        vec![],
    ] {
        let res = execute_reveal_nft(
            &mut state,
            &members,
            &"buyer".to_string(),
            &funds,
            "hope.1".to_string(),
            1,
            sample_mint_msg(),
        );
        assert_eq!(res, Err(ContractError::Notenough {}));
        assert_eq!(state, before);
    }
}

#[test]
fn first_matching_denomination_wins() {
    let (mut state, members) = fresh_contract();
    let funds = vec![
        Coin { denom: "uatom".to_string(), amount: 7 },
        Coin { denom: "ujuno".to_string(), amount: 3000000 },
        Coin { denom: "ujuno".to_string(), amount: 1 },
    ];
    let res = execute_reveal_nft(
        &mut state,
        &members,
        &"buyer".to_string(),
        &funds,
        "hope.1".to_string(),
        1,
        sample_mint_msg(),
    );
    assert!(res.is_ok());
}

#[test]
fn closed_gate_rejects_despite_correct_payment() {
    let (mut state, members) = fresh_contract();
    state.can_mint = false;
    let before = state.clone();
    let funds = vec![Coin { denom: "ujuno".to_string(), amount: 3000000 }];
    let res = execute_reveal_nft(
        &mut state,
        &members,
        &"buyer".to_string(),
        &funds,
        "hope.1".to_string(),
        1,
        sample_mint_msg(),
    );
    assert_eq!(res, Err(ContractError::CannotMint {}));
    assert_eq!(state, before);
}

#[test]
fn reveal_twice_succeeds_twice_and_double_counts() {
    // Re-reveal of one slot is not blocked: both calls are charged and counted.
    let (mut state, members) = fresh_contract();
    let funds = vec![Coin { denom: "ujuno".to_string(), amount: 3000000 }];
    for expected_total in [1u128, 2u128] {
        let res = execute_reveal_nft(
            &mut state,
            &members,
            &"buyer".to_string(),
            &funds,
            "hope.1".to_string(),
            3,
            sample_mint_msg(),
        );
        assert!(res.is_ok());
        assert_eq!(state.total_nft, expected_total);
        assert_eq!(state.check_mint, vec![true, true, false, true, true]);
    }
}

#[test]
fn payout_is_floored() {
    // fee 100 at 1.5% pays floor(1.5) = 1; a tiny portion pays 0 but still
    // yields a payment instruction, not a transfer.
    let mut state = instantiate(
        "creator".to_string(),
        InstantiateMsg {
            denom: "ujuno".to_string(),
            fee: 100,
            royalty: 0,
            check_mint: vec![true],
        },
    );
    let members = vec![
        UserInfo { address: "a".to_string(), portion: ONE_PERCENT + ONE_PERCENT / 2 },
        UserInfo { address: "b".to_string(), portion: 1 },
    ];
    let funds = vec![Coin { denom: "ujuno".to_string(), amount: 100 }];
    let res = execute_reveal_nft(
        &mut state,
        &members,
        &"buyer".to_string(),
        &funds,
        "hope.1".to_string(),
        1,
        sample_mint_msg(),
    )
    .unwrap();
    assert_eq!(
        res[0],
        Instruction::Send { to_address: "a".to_string(), denom: "ujuno".to_string(), amount: 1 }
    );
    assert_eq!(
        res[1],
        Instruction::Send { to_address: "b".to_string(), denom: "ujuno".to_string(), amount: 0 }
    );
}

#[test]
fn every_zero_portion_member_gets_the_token() {
    let (mut state, _) = fresh_contract();
    let members = vec![
        UserInfo { address: "p1".to_string(), portion: 0 },
        UserInfo { address: "p2".to_string(), portion: 0 },
    ];
    let funds = vec![Coin { denom: "ujuno".to_string(), amount: 3000000 }];
    let res = execute_reveal_nft(
        &mut state,
        &members,
        &"buyer".to_string(),
        &funds,
        "hope.9".to_string(),
        1,
        sample_mint_msg(),
    )
    .unwrap();
    // A misconfigured list with two zero-portion members sends the same token twice.
    assert_eq!(res.len(), 3);
    assert_eq!(
        res[0],
        Instruction::TransferNft {
            contract_addr: "nft".to_string(),
            recipient: "p1".to_string(),
            token_id: "hope.9".to_string(),
        }
    );
    assert_eq!(
        res[1],
        Instruction::TransferNft {
            contract_addr: "nft".to_string(),
            recipient: "p2".to_string(),
            token_id: "hope.9".to_string(),
        }
    );
}

#[test]
fn multi_digit_token_id() {
    let mut state = instantiate(
        "creator".to_string(),
        InstantiateMsg {
            denom: "ujuno".to_string(),
            fee: 1,
            royalty: 0,
            check_mint: vec![true; 305],
        },
    );
    let members = vec![];
    let funds = vec![Coin { denom: "ujuno".to_string(), amount: 1 }];
    let res = execute_reveal_nft(
        &mut state,
        &members,
        &"buyer".to_string(),
        &funds,
        "hope.305".to_string(),
        305,
        sample_mint_msg(),
    )
    .unwrap();
    assert_eq!(res.len(), 1);
    match &res[0] {
        Instruction::MintReveal { token_id, owner, .. } => {
            assert_eq!(token_id, "Reveal.305");
            assert_eq!(owner, "buyer");
        }
        other => panic!("expected a mint instruction, got {:?}", other),
    }
}

#[test]
fn non_owner_is_rejected_everywhere() {
    let (mut state, mut members) = fresh_contract();
    let state_before = state.clone();
    let members_before = members.clone();
    let intruder = "intruder".to_string();
    let no_funds: Vec<Coin> = vec![];
    let attempts = vec![
        ExecuteMsg::SetAdminsList { members: vec![] },
        ExecuteMsg::SetRevealAddress { address: "elsewhere".to_string() },
        ExecuteMsg::SetNftAddress { address: "elsewhere".to_string() },
        ExecuteMsg::RunMintFunction { flag: false },
    ];
    for msg in attempts {
        let res = execute(&mut state, &mut members, &intruder, &no_funds, true, msg);
        assert_eq!(res, Err(ContractError::Unauthorized {}));
        assert_eq!(state, state_before);
        assert_eq!(members, members_before);
    }
}

#[test]
fn rejected_address_fails_before_ownership() {
    let (mut state, mut members) = fresh_contract();
    let before = state.clone();
    let no_funds: Vec<Coin> = vec![];
    for sender in ["creator", "intruder"] {
        let res = execute(
            &mut state,
            &mut members,
            &sender.to_string(),
            &no_funds,
            false,
            ExecuteMsg::SetRevealAddress { address: "not an address".to_string() },
        );
        assert_eq!(res, Err(ContractError::InvalidAddress {}));
        assert_eq!(state, before);
    }
}

#[test]
fn queries_are_plain_reads() {
    // The two queries return the stored values verbatim; the request kinds
    // carry no payload.
    assert_eq!(QueryMsg::GetStateInfo {}, QueryMsg::GetStateInfo {});
    assert_ne!(QueryMsg::GetStateInfo {}, QueryMsg::GetMembers {});
    let (state, members) = fresh_contract();
    assert_eq!(state.owner, "creator");
    assert_eq!(members.len(), 2);
}
