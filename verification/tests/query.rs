use cosmwasm_std::testing::{mock_dependencies, MockApi, MockQuerier, MockStorage};
use cosmwasm_std::{OwnedDeps, StdError};
use simple_nft::contract::{execute, instantiate};
use simple_nft::env::{Addr, BlockInfo, Coin, Env, Expiration, MessageInfo, Timestamp};
use simple_nft::host::{Deps, DepsMut};
use simple_nft::msg::{
    Approval, ApprovedForAllResponse, ApprovedResponse, ExecuteMsg, InstantiateMsg, MintMsg,
    NftInfoResponse, OwnerOfResponse, QueryMsg, QueryResponse,
};
use simple_nft::query::{
    query, query_approval, query_approvals, query_num_tokens, query_owner_of,
};

const DENOM: &str = "ubit";

type Mock = OwnedDeps<MockStorage, MockApi, MockQuerier>;

fn as_mut(deps: &mut Mock) -> DepsMut<'_> {
    DepsMut { inner: deps.as_mut() }
}

fn as_ref(deps: &Mock) -> Deps<'_> {
    Deps { inner: deps.as_ref() }
}

fn mock_env() -> Env {
    let env = cosmwasm_std::testing::mock_env();
    Env {
        block: BlockInfo {
            height: env.block.height,
            time: Timestamp::from_nanos(env.block.time.nanos()),
        },
    }
}

fn coins(amount: u128, denom: &str) -> Vec<Coin> {
    vec![Coin::new(amount, denom)]
}

fn mock_info(sender: &str, funds: &[Coin]) -> MessageInfo {
    MessageInfo { sender: Addr::unchecked(sender), funds: funds.to_vec() }
}

fn init_msg(name: String, symbol: String) -> InstantiateMsg {
    InstantiateMsg { name, symbol }
}

fn mint_msg(owner: String) -> MintMsg {
    MintMsg { owner, token_uri: None, price: coins(1000, DENOM) }
}

#[test]
fn asking_price() {
    let mut deps = mock_dependencies();
    let env = mock_env();
    let info = mock_info("minter", &coins(0u128, DENOM));
    let msg = init_msg("TestNFT".to_string(), "NFT".to_string());
    let res = instantiate(&mut as_mut(&mut deps), env.clone(), info.clone(), msg).unwrap();
    assert_eq!(res.messages.len(), 0);

    let mint_msg = mint_msg("creator".to_string());
    let msg = ExecuteMsg::Mint(mint_msg);
    let res = execute(&mut as_mut(&mut deps), env.clone(), info.clone(), msg).unwrap();
    assert_eq!(0, res.messages.len());
    assert_eq!(4, res.attributes.len());

    // Successful query
    let query_msg = QueryMsg::AskingPrice { token_id: 1 };
    let res = query(&as_ref(&deps), env.clone(), query_msg).unwrap();
    let res = match res {
        QueryResponse::AskingPrice(res) => res,
        other => panic!("{:?}", other),
    };
    assert_eq!(res.price, vec![Coin { amount: 1000u128, denom: DENOM.to_string() }]);

    // Unsuccessful query
    let query_msg = QueryMsg::AskingPrice { token_id: 2 };
    let res = query(&as_ref(&deps), env, query_msg).unwrap_err();
    match res {
        StdError::NotFound { .. } => {}
        e => panic!("{:?}", e),
    };
}

#[test]
fn owner_of() {
    let mut deps = mock_dependencies();
    let env = mock_env();
    let info = mock_info("minter", &coins(0u128, DENOM));
    let msg = init_msg("TestNFT".to_string(), "NFT".to_string());
    let res = instantiate(&mut as_mut(&mut deps), env.clone(), info.clone(), msg).unwrap();
    assert_eq!(res.messages.len(), 0);

    let mint_msg = mint_msg("creator".to_string());
    let msg = ExecuteMsg::Mint(mint_msg);
    execute(&mut as_mut(&mut deps), env.clone(), info.clone(), msg).unwrap();

    // Successful response
    let res = query_owner_of(&as_ref(&deps), env.clone(), 1u64, None).unwrap();
    assert_eq!(res.owner, "creator");
    assert_eq!(res.approvals, vec![]);

    // Unsuccessful response
    let res = query_owner_of(&as_ref(&deps), env.clone(), 2u64, Some(true)).unwrap_err();
    match res {
        StdError::NotFound { .. } => {}
        e => panic!("{:?}", e),
    };
}

#[test]
fn num_tokens() {
    let mut deps = mock_dependencies();
    let env = mock_env();
    let info = mock_info("minter", &coins(0u128, DENOM));
    let msg = init_msg("TestNFT".to_string(), "NFT".to_string());
    let res = instantiate(&mut as_mut(&mut deps), env.clone(), info.clone(), msg).unwrap();
    assert_eq!(res.messages.len(), 0);

    // Query # of tokens after initialization
    let res = query_num_tokens(&as_ref(&deps), env.clone()).unwrap();
    assert_eq!(res.tokens, 0);

    let mint_msg = mint_msg("creator".to_string());
    let msg = ExecuteMsg::Mint(mint_msg);
    execute(&mut as_mut(&mut deps), env.clone(), info.clone(), msg).unwrap();

    // Query # of tokens after minting
    let res = query_num_tokens(&as_ref(&deps), env.clone()).unwrap();
    assert_eq!(res.tokens, 1);
}

#[test]
fn nft_info() {
    let mut deps = mock_dependencies();
    let env = mock_env();
    let info = mock_info("minter", &coins(0u128, DENOM));
    let msg = init_msg("TestNFT".to_string(), "NFT".to_string());
    let res = instantiate(&mut as_mut(&mut deps), env.clone(), info.clone(), msg).unwrap();
    assert_eq!(res.messages.len(), 0);

    let mint_msg = mint_msg("creator".to_string());
    let msg = ExecuteMsg::Mint(mint_msg);
    execute(&mut as_mut(&mut deps), env.clone(), info.clone(), msg).unwrap();

    // Successful query
    let msg = QueryMsg::NftInfo { token_id: 1u64 };
    let res = query(&as_ref(&deps), env.clone(), msg).unwrap();
    let result = match res {
        QueryResponse::NftInfo(result) => result,
        other => panic!("{:?}", other),
    };
    assert_eq!(result.token_uri, String::from("None"));

    // Unsuccessful query
    let msg = QueryMsg::NftInfo { token_id: 2u64 };
    let res = query(&as_ref(&deps), env.clone(), msg).unwrap_err();
    match res {
        StdError::NotFound { .. } => {}
        e => panic!("{:?}", e),
    };
}

#[test]
fn all_nft_info() {
    let mut deps = mock_dependencies();
    let env = mock_env();
    let info = mock_info("minter", &coins(0u128, DENOM));
    let msg = init_msg("TestNFT".to_string(), "NFT".to_string());
    let res = instantiate(&mut as_mut(&mut deps), env.clone(), info.clone(), msg).unwrap();
    assert_eq!(res.messages.len(), 0);

    let msg = ExecuteMsg::Mint(mint_msg(String::from("owner")));
    execute(&mut as_mut(&mut deps), env.clone(), info.clone(), msg).unwrap();

    // Successful query
    let msg = QueryMsg::AllNftInfo { token_id: 1u64, include_expired: Some(true) };
    let res = query(&as_ref(&deps), env.clone(), msg).unwrap();
    let result = match res {
        QueryResponse::AllNftInfo(result) => result,
        other => panic!("{:?}", other),
    };
    assert_eq!(result.owner, OwnerOfResponse { owner: String::from("owner"), approvals: vec![] });
    assert_eq!(result.info, NftInfoResponse { token_uri: String::from("None") });
}

#[test]
fn contract_info() {
    let mut deps = mock_dependencies();
    let env = mock_env();
    let info = mock_info("minter", &coins(0u128, DENOM));
    let msg = init_msg("TestNFT".to_string(), "NFT".to_string());
    let res = instantiate(&mut as_mut(&mut deps), env.clone(), info.clone(), msg).unwrap();
    assert_eq!(res.messages.len(), 0);

    let msg = QueryMsg::ContractInfo {};
    let res = query(&as_ref(&deps), env.clone(), msg).unwrap();
    let result = match res {
        QueryResponse::ContractInfo(result) => result,
        other => panic!("{:?}", other),
    };
    assert_eq!(result.name, String::from("TestNFT"));
    assert_eq!(result.symbol, String::from("NFT"));
}

#[test]
fn approval() {
    let mut deps = mock_dependencies();
    let env = mock_env();
    let info = mock_info("minter", &coins(0u128, DENOM));
    let msg = init_msg("TestNFT".to_string(), "NFT".to_string());
    let res = instantiate(&mut as_mut(&mut deps), env.clone(), info.clone(), msg).unwrap();
    assert_eq!(res.messages.len(), 0);

    // Mint a new token
    let mint_msg = mint_msg("creator".to_string());
    let msg = ExecuteMsg::Mint(mint_msg);
    execute(&mut as_mut(&mut deps), env.clone(), info.clone(), msg).unwrap();

    // Approve operator
    let msg = ExecuteMsg::Approve { operator: "operator".to_string(), token_id: 1, expires: None };
    let info = mock_info("creator", &coins(0u128, DENOM));
    execute(&mut as_mut(&mut deps), env.clone(), info.clone(), msg).unwrap();

    // Successful query
    let res =
        query_approval(&as_ref(&deps), env.clone(), 1, String::from("operator"), Some(false))
            .unwrap();
    assert_eq!(
        res,
        ApprovedResponse {
            approval: Approval {
                operator: Addr::unchecked("operator"),
                expires: Expiration::Never {}
            }
        }
    );

    // Unsuccessful query
    // * operator not approved
    let res = query_approval(&as_ref(&deps), env.clone(), 1u64, String::from("unknown"), None)
        .unwrap_err();
    match res {
        StdError::NotFound { .. } => {}
        e => panic!("{:?}", e),
    };
}

#[test]
fn approvals() {
    let mut deps = mock_dependencies();
    let env = mock_env();
    let info = mock_info("minter", &coins(0u128, DENOM));
    let msg = init_msg("TestNFT".to_string(), "NFT".to_string());
    let res = instantiate(&mut as_mut(&mut deps), env.clone(), info.clone(), msg).unwrap();
    assert_eq!(res.messages.len(), 0);

    // Mint a new token
    let mint_msg = mint_msg("creator".to_string());
    let msg = ExecuteMsg::Mint(mint_msg);
    execute(&mut as_mut(&mut deps), env.clone(), info.clone(), msg).unwrap();

    // Approve operator
    let msg = ExecuteMsg::Approve { operator: "operator".to_string(), token_id: 1, expires: None };
    let info = mock_info("creator", &coins(0u128, DENOM));
    execute(&mut as_mut(&mut deps), env.clone(), info.clone(), msg).unwrap();

    let res = query_approvals(&as_ref(&deps), env.clone(), 1u64, None).unwrap();

    assert_eq!(
        res,
        ApprovedForAllResponse {
            approval: vec![Approval {
                operator: Addr::unchecked("operator"),
                expires: Expiration::Never {}
            }]
        }
    )
}
