use cosmwasm_std::testing::{mock_dependencies, MockApi, MockQuerier, MockStorage};
use cosmwasm_std::{OwnedDeps, StdError};
use simple_nft::contract::{
    execute, handle_approve_all, handle_mint, handle_revoke_all, instantiate,
};
use simple_nft::env::{
    Addr, BlockInfo, Coin, Env, Expiration, MessageInfo, Response, Timestamp,
};
use simple_nft::host::{Deps, DepsMut};
use simple_nft::msg::{Approval, ExecuteMsg, InstantiateMsg, MintMsg};
use simple_nft::query::{query_config, query_tokens};
use simple_nft::state::{has_operator, load_operator, save_token};
use simple_nft::ContractError;

const DENOM: &str = "ubit";

type Mock = OwnedDeps<MockStorage, MockApi, MockQuerier>;

fn as_mut(deps: &mut Mock) -> DepsMut<'_> {
    DepsMut { inner: deps.as_mut() }
}

fn as_ref(deps: &Mock) -> Deps<'_> {
    Deps { inner: deps.as_ref() }
}

fn mock_env() -> Env {
    let env = cosmwasm_std::testing::mock_env();
    Env {
        block: BlockInfo {
            height: env.block.height,
            time: Timestamp::from_nanos(env.block.time.nanos()),
        },
    }
}

fn coins(amount: u128, denom: &str) -> Vec<Coin> {
    vec![Coin::new(amount, denom)]
}

fn mock_info(sender: &str, funds: &[Coin]) -> MessageInfo {
    MessageInfo { sender: Addr::unchecked(sender), funds: funds.to_vec() }
}

fn init_msg(name: String, symbol: String) -> InstantiateMsg {
    InstantiateMsg { name, symbol }
}

fn mint_msg(owner: String) -> MintMsg {
    MintMsg { owner, token_uri: None, price: coins(1000, DENOM) }
}

#[test]
fn proper_initialization() {
    // Create mock dependencies and environment
    let mut deps = mock_dependencies();
    let env = mock_env();
    let info = mock_info("creator", &coins(0, DENOM));

    // Correct instantiation
    let msg = init_msg("TestNFT".to_string(), "NFT".to_string());
    let res = instantiate(&mut as_mut(&mut deps), mock_env(), info.clone(), msg).unwrap();
    assert_eq!(0, res.messages.len());

    let stored_state = query_config(&as_ref(&deps)).unwrap();
    assert_eq!(stored_state.name, "TestNFT");
    assert_eq!(stored_state.symbol, "NFT");
    assert_eq!(stored_state.num_tokens, 0u64);
    assert_eq!(stored_state.minter, Addr::unchecked("creator"));

    // Following tests are to check correct error when no value is given
    // to either of the fields in InstantiateMsg.
    let msg = init_msg(String::new(), "NFT".to_string());
    let res = instantiate(&mut as_mut(&mut deps), env.clone(), info.clone(), msg).unwrap_err();

    match res {
        ContractError::CustomError { .. } => {}
        e => panic!("{:?}", e),
    }

    let msg = init_msg(String::from("TestNFT"), String::new());
    let res = instantiate(&mut as_mut(&mut deps), env.clone(), info.clone(), msg).unwrap_err();

    match res {
        ContractError::CustomError { .. } => {}
        e => panic!("{:?}", e),
    }

    let msg = init_msg(String::from(""), String::from(""));
    let res = instantiate(&mut as_mut(&mut deps), env, info, msg).unwrap_err();

    match res {
        ContractError::CustomError { .. } => {}
        e => panic!("{:?}", e),
    }
}

#[test]
fn mint() {
    let mut deps = mock_dependencies();
    let env = mock_env();

    let info = mock_info("minter", &coins(0u128, DENOM));
    let msg = init_msg("TestNFT".to_string(), "NFT".to_string());
    instantiate(&mut as_mut(&mut deps), env.clone(), info.clone(), msg).unwrap();

    // Successful token minting
    let mint_msg = mint_msg("creator".to_string());
    let res = handle_mint(&mut as_mut(&mut deps), env.clone(), info.clone(), mint_msg).unwrap();
    assert_eq!(0, res.messages.len());
    assert_eq!(4, res.attributes.len());

    let stored_token = query_tokens(&as_ref(&deps), 1).unwrap();
    assert_eq!(stored_token.owner, Addr::unchecked("creator"));
    assert_eq!(stored_token.token_id, 1);
    assert_eq!(stored_token.base_price, coins(1000, DENOM));
    assert_eq!(stored_token.approvals, vec![]);
    assert_eq!(stored_token.token_uri, None);

    // Unsuccessful token minting
    // * owner name is empty
    let msg = MintMsg { owner: String::new(), token_uri: None, price: coins(1000, DENOM) };

    let res = handle_mint(&mut as_mut(&mut deps), env.clone(), info.clone(), msg).unwrap_err();
    match res {
        ContractError::Std(StdError::GenericErr { .. }) => {}
        e => panic!("{:?}", e),
    };

    // * amount is empty i.e., price has been provided as 0Denom
    let msg = MintMsg { owner: String::from("owner"), token_uri: None, price: coins(0, DENOM) };

    let res = handle_mint(&mut as_mut(&mut deps), env.clone(), info.clone(), msg).unwrap_err();
    match res {
        ContractError::CustomError { .. } => {}
        e => panic!("{:?}", e),
    };

    // * price is empty
    let msg = MintMsg { owner: String::from("owner"), token_uri: None, price: vec![] };

    let res = handle_mint(&mut as_mut(&mut deps), env.clone(), info.clone(), msg).unwrap_err();
    match res {
        ContractError::CustomError { .. } => {}
        e => panic!("{:?}", e),
    };
}

#[test]
fn approve() {
    let mut deps = mock_dependencies();
    let mut env = mock_env();
    env.block.height = 50u64;
    let info = mock_info("creator", &coins(0, DENOM));

    let msg = init_msg("TestNFT".to_string(), "NFT".to_string());
    let res = instantiate(&mut as_mut(&mut deps), env.clone(), info.clone(), msg).unwrap();
    assert_eq!(0, res.messages.len());

    let mint_msg = mint_msg("owner1".to_string());
    handle_mint(&mut as_mut(&mut deps), env.clone(), info, mint_msg).unwrap();

    // Successful approval request
    let approve_msg =
        ExecuteMsg::Approve { operator: "operator".to_string(), token_id: 1u64, expires: None };

    let info = mock_info("owner1", &coins(0, DENOM));
    let res = execute(&mut as_mut(&mut deps), env.clone(), info.clone(), approve_msg).unwrap();
    assert_eq!(res.messages.len(), 0);
    assert_eq!(res.attributes.len(), 4);

    let token = query_tokens(&as_ref(&deps), 1u64).unwrap();
    assert_eq!(token.approvals.first().unwrap().operator, Addr::unchecked("operator"));
    assert_eq!(token.approvals.first().unwrap().expires, Expiration::Never {});

    // Unsuccessful approval request
    // * empty operator field
    let approve_msg =
        ExecuteMsg::Approve { operator: String::new(), token_id: 1u64, expires: None };
    let info = mock_info("owner1", &coins(0, DENOM));
    let res = execute(&mut as_mut(&mut deps), env.clone(), info.clone(), approve_msg).unwrap_err();
    match res {
        ContractError::Std(StdError::GenericErr { .. }) => {}
        e => panic!("{:?}", e),
    };

    // * Invalid token
    let approve_msg =
        ExecuteMsg::Approve { operator: "operator".to_string(), token_id: 2u64, expires: None };
    let info = mock_info("owner1", &coins(0, DENOM));
    execute(&mut as_mut(&mut deps), env.clone(), info.clone(), approve_msg).unwrap_err();

    // * expired approval
    let approve_msg = ExecuteMsg::Approve {
        operator: "operator".to_string(),
        token_id: 1u64,
        expires: Some(Expiration::AtHeight(45u64)),
    };
    let info = mock_info("owner1", &coins(0, DENOM));
    let res = execute(&mut as_mut(&mut deps), env.clone(), info.clone(), approve_msg).unwrap_err();
    match res {
        ContractError::Expired {} => {}
        e => panic!("{:?}", e),
    };
}

#[test]
fn approve_all() {
    let mut deps = mock_dependencies();
    let mut env = mock_env();
    env.block.height = 25u64;
    let info = mock_info("creator", &coins(0, DENOM));
    let msg = init_msg("TestNFT".to_string(), "NFT".to_string());
    instantiate(&mut as_mut(&mut deps), env.clone(), info.clone(), msg).unwrap();

    // Successful approval for operator
    // * new operator
    let operator = String::from("operator");
    let expires = None;

    let res =
        handle_approve_all(&mut as_mut(&mut deps), env.clone(), info.clone(), operator, expires)
            .unwrap();
    assert_eq!(res.messages.len(), 0);
    assert_eq!(res.attributes.len(), 3);

    let res = load_operator(&as_ref(&deps), &info.sender, &Addr::unchecked("operator"))
        .unwrap()
        .unwrap();
    assert_eq!(res, Expiration::Never {});

    // * update expiration
    let operator = String::from("operator");
    let expires = Some(Expiration::AtHeight(130_000));

    let res =
        handle_approve_all(&mut as_mut(&mut deps), env.clone(), info.clone(), operator, expires)
            .unwrap();
    assert_eq!(res.messages.len(), 0);
    assert_eq!(res.attributes.len(), 3);

    // Unsuccessful approval for operator
    // * Operator exists
    let operator = String::from("operator");
    let expires = Some(Expiration::AtHeight(130_000));
    let res =
        handle_approve_all(&mut as_mut(&mut deps), env.clone(), info.clone(), operator, expires)
            .unwrap_err();

    match res {
        ContractError::OperatorApproved { .. } => {}
        e => panic!("{:?}", e),
    };

    // * Expired height
    let operator = String::from("operator");
    let expires = Some(Expiration::AtHeight(24u64));

    let res =
        handle_approve_all(&mut as_mut(&mut deps), env.clone(), info.clone(), operator, expires)
            .unwrap_err();
    match res {
        ContractError::Expired => {}
        e => panic!("{:?}", e),
    };

    // * Expired time
    let operator = String::from("operator");
    let expires = Some(Expiration::AtTime(Timestamp::from_nanos(
        env.block.time.nanos() - 64u64 * 1_000_000_000,
    )));

    let res =
        handle_approve_all(&mut as_mut(&mut deps), env.clone(), info.clone(), operator, expires)
            .unwrap_err();
    match res {
        ContractError::Expired => {}
        e => panic!("{:?}", e),
    };
}

#[test]
fn revoke() {
    let mut deps = mock_dependencies();
    let env = mock_env();
    let info = mock_info("creator", &coins(0, DENOM));

    let msg = init_msg("TestNFT".to_string(), "NFT".to_string());
    let res = instantiate(&mut as_mut(&mut deps), env.clone(), info.clone(), msg).unwrap();
    assert_eq!(0, res.messages.len());

    // Mint a new token
    let mint_msg = mint_msg("owner1".to_string());
    let _res = handle_mint(&mut as_mut(&mut deps), env.clone(), info.clone(), mint_msg).unwrap();
    let approve_msg =
        ExecuteMsg::Approve { operator: "operator".to_string(), token_id: 1u64, expires: None };
    let info = mock_info("owner1", &coins(0, DENOM));
    execute(&mut as_mut(&mut deps), env.clone(), info.clone(), approve_msg).unwrap();

    let token = query_tokens(&as_ref(&deps), 1u64).unwrap();
    assert_eq!(token.approvals.first().unwrap().operator, Addr::unchecked("operator"));

    // Successful approval revoke
    let revoke_msg = ExecuteMsg::Revoke { operator: "operator".to_string(), token_id: 1u64 };

    let res = execute(&mut as_mut(&mut deps), env.clone(), info.clone(), revoke_msg).unwrap();
    assert_eq!(res.messages.len(), 0);
    assert_eq!(res.attributes.len(), 4);

    let token = query_tokens(&as_ref(&deps), 1u64).unwrap();
    assert_eq!(token.approvals, vec![]);

    // Unsuccessful approval revoke
    // * Invalid token id
    let revoke_msg = ExecuteMsg::Revoke { operator: "operator".to_string(), token_id: 2u64 };

    let res = execute(&mut as_mut(&mut deps), env.clone(), info.clone(), revoke_msg).unwrap_err();
    match res {
        ContractError::Std(StdError::NotFound { .. }) => {}
        e => panic!("{:?}", e),
    };

    // * Approval being revoked for an address that isn't approved.
    let revoke_msg = ExecuteMsg::Revoke { operator: "unknown".to_string(), token_id: 1u64 };

    let res = execute(&mut as_mut(&mut deps), env.clone(), info.clone(), revoke_msg).unwrap_err();
    match res {
        ContractError::ApprovalNotFound { .. } => {}
        e => panic!("{:?}", e),
    };

    // * Unauthorised sender
    let info = mock_info("owner2", &coins(0, DENOM));
    let revoke_msg = ExecuteMsg::Revoke { operator: "operator".to_string(), token_id: 1u64 };

    let res = execute(&mut as_mut(&mut deps), env.clone(), info.clone(), revoke_msg).unwrap_err();
    match res {
        ContractError::Unauthorized => {}
        e => panic!("{:?}", e),
    };
}

#[test]
fn revoke_all() {
    let mut deps = mock_dependencies();
    let env = mock_env();
    let info = mock_info("owner", &coins(0u128, DENOM));

    // Approve an address for all tokens
    let res = handle_approve_all(
        &mut as_mut(&mut deps),
        env.clone(),
        info.clone(),
        String::from("operator"),
        None,
    )
    .unwrap();
    assert_eq!(res.messages.len(), 0);
    assert_eq!(res.attributes.len(), 3);

    // Check that the new approval exists in correct format
    let key = (Addr::unchecked("owner"), Addr::unchecked("operator"));
    assert!(has_operator(&as_ref(&deps), &key.0, &key.1));
    assert_eq!(
        load_operator(&as_ref(&deps), &key.0, &key.1).unwrap().unwrap(),
        Expiration::Never {}
    );

    // Revoke previously provided approval
    let res = handle_revoke_all(
        &mut as_mut(&mut deps),
        env.clone(),
        info.clone(),
        String::from("operator"),
    )
    .unwrap();
    assert_eq!(res.messages.len(), 0);
    assert_eq!(res.attributes.len(), 3);
    assert!(!has_operator(&as_ref(&deps), &key.0, &key.1));

    // Unsuccessful revoke
    let res = handle_revoke_all(
        &mut as_mut(&mut deps),
        env.clone(),
        info.clone(),
        String::from("operator"),
    )
    .unwrap_err();
    match res {
        ContractError::ApprovalNotFound { .. } => {}
        e => panic!("{:?}", e),
    };
}

#[test]
fn transfer_nft_by_owner() {
    let mut deps = mock_dependencies();
    let env = mock_env();

    let info = mock_info("minter", &coins(0u128, DENOM));
    let msg = init_msg("TestNFT".to_string(), "NFT".to_string());
    let _res = instantiate(&mut as_mut(&mut deps), env.clone(), info.clone(), msg).unwrap();

    let mint_msg = mint_msg("creator".to_string());

    let msg = ExecuteMsg::Mint(mint_msg);
    let res: Response = execute(&mut as_mut(&mut deps), env.clone(), info.clone(), msg).unwrap();
    assert_eq!(0, res.messages.len());
    assert_eq!(4, res.attributes.len());

    let info = mock_info("creator", &coins(0u128, DENOM));
    let msg = ExecuteMsg::TransferNft { recipient: String::from("recipient"), token_id: 1 };
    let res: Response = execute(&mut as_mut(&mut deps), env, info, msg).unwrap();
    assert_eq!(0, res.messages.len());
    assert_eq!(4, res.attributes.len());
}

#[test]
fn transfer_nft_by_operator() {
    // Setup the necessary environment
    let mut deps = mock_dependencies();
    let env = mock_env();

    let info = mock_info("minter", &coins(0u128, DENOM));
    let msg = init_msg("TestNFT".to_string(), "NFT".to_string());
    let _res = instantiate(&mut as_mut(&mut deps), env.clone(), info.clone(), msg).unwrap();

    let mint_msg = mint_msg("creator".to_string());

    let msg = ExecuteMsg::Mint(mint_msg);
    let res: Response = execute(&mut as_mut(&mut deps), env.clone(), info.clone(), msg).unwrap();
    assert_eq!(0, res.messages.len());
    assert_eq!(4, res.attributes.len());

    // Add approval to the token
    let mut token = query_tokens(&as_ref(&deps), 1u64).unwrap();
    token.approvals =
        vec![Approval { operator: Addr::unchecked("operator"), expires: Expiration::Never {} }];
    save_token(&mut as_mut(&mut deps), 1u64, &token).unwrap();

    // *operator* should be capable of transferring the token
    let info = mock_info("operator", &coins(0u128, DENOM));
    let msg = ExecuteMsg::TransferNft { recipient: String::from("recipient"), token_id: 1 };
    let res: Response = execute(&mut as_mut(&mut deps), env, info, msg).unwrap();
    assert_eq!(0, res.messages.len());
    assert_eq!(4, res.attributes.len());
}
