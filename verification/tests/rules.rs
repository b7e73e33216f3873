use cosmwasm_std::{CosmosMsg, StdError, WasmMsg};
use simple_nft::api::{accepted, accepted_maybe};
use simple_nft::command::{
    approve, approve_all, authorize, mint, revoke, revoke_all, send, set_up, transfer,
};
use simple_nft::env::{
    clone_coins, decimal_text, Addr, Attribute, BlockInfo, Coin, Env, Expiration, Response,
    Timestamp,
};
use simple_nft::msg::{
    Approval, ApprovedResponse, InstantiateMsg, MintMsg, OperatorApproval,
};
use simple_nft::query::{
    all_nft_info, approval_for, approvals_of, asking_price, contract_info, nft_info, num_tokens,
    extend_page, owner_of, page_size, parse_approval, DEFAULT_LIMIT, MAX_LIMIT,
};
use simple_nft::rules::{
    check_price, find_approval, grant_approval, has_live_approval, revoke_approval,
    shown_approvals,
};
use simple_nft::state::{
    can_key, expiration_from_record, expiration_to_record, grants_of_records, State, TokenInfo,
};
use simple_nft::ContractError;

fn block(height: u64, nanos: u64) -> BlockInfo {
    BlockInfo { height, time: Timestamp::from_nanos(nanos) }
}

fn approval(operator: &str, expires: Expiration) -> Approval {
    Approval { operator: Addr::unchecked(operator), expires }
}

fn token(owner: &str, approvals: Vec<Approval>) -> TokenInfo {
    TokenInfo {
        owner: Addr::unchecked(owner),
        approvals,
        base_price: vec![Coin::new(1000, "ubit")],
        token_uri: None,
        token_id: 4,
    }
}

fn config(count: u64) -> State {
    State {
        name: "TestNFT".to_string(),
        symbol: "NFT".to_string(),
        minter: Addr::unchecked("minter"),
        num_tokens: count,
    }
}

fn host_error() -> StdError {
    StdError::generic_err("host")
}

fn attribute(key: &str, value: &str) -> Attribute {
    Attribute { key: key.to_string(), value: value.to_string() }
}

#[test]
fn decimal_text_writes_numbers() {
    assert_eq!(decimal_text(0), "0");
    assert_eq!(decimal_text(7), "7");
    assert_eq!(decimal_text(9), "9");
    assert_eq!(decimal_text(10), "10");
    assert_eq!(decimal_text(1234567890), "1234567890");
    assert_eq!(decimal_text(u64::MAX), "18446744073709551615");
    for n in [1u64, 19, 100, 101, 999, 1000, 65_535, 4_294_967_296] {
        assert_eq!(decimal_text(n), n.to_string());
    }
}

#[test]
fn addresses_compare_by_their_text() {
    let a = Addr::unchecked("alice");
    assert_eq!(a.as_str(), "alice");
    assert_eq!(a.as_string(), "alice");
    assert_eq!(a.clone(), a);
    assert_ne!(a, Addr::unchecked("Alice"));
    assert_eq!(a.into_string(), "alice".to_string());
    assert!(can_key(&Addr::unchecked("a".repeat(0xFFFF).as_str())));
    assert!(!can_key(&Addr::unchecked("a".repeat(0x1_0000).as_str())));
    // the limit is in bytes
    assert!(!can_key(&Addr::unchecked("\u{e9}".repeat(0x8000).as_str())));
}

#[test]
fn expiration_counts_the_boundary_as_reached() {
    let now = block(100, 5_000);
    assert!(Expiration::AtHeight(99).is_expired(&now));
    assert!(Expiration::AtHeight(100).is_expired(&now));
    assert!(!Expiration::AtHeight(101).is_expired(&now));
    assert!(Expiration::AtTime(Timestamp::from_nanos(4_999)).is_expired(&now));
    assert!(Expiration::AtTime(Timestamp::from_nanos(5_000)).is_expired(&now));
    assert!(!Expiration::AtTime(Timestamp::from_nanos(5_001)).is_expired(&now));
    assert!(!Expiration::Never.is_expired(&now));
    assert!(!Expiration::Never.is_expired(&block(u64::MAX, u64::MAX)));
    assert!(Expiration::AtHeight(0).is_expired(&block(0, 0)));
    assert_eq!(Expiration::unwrap_or_never(None), Expiration::Never);
    assert_eq!(
        Expiration::unwrap_or_never(Some(Expiration::AtHeight(3))),
        Expiration::AtHeight(3)
    );
    assert_eq!(Timestamp::from_nanos(17).nanos(), 17);
    let env = Env { block: now };
    assert_eq!(env.block.height, 100);
}

#[test]
fn expirations_are_stored_as_plain_values() {
    assert_eq!(expiration_to_record(Expiration::Never), None);
    assert_eq!(expiration_to_record(Expiration::AtHeight(8)), Some((false, 8)));
    assert_eq!(
        expiration_to_record(Expiration::AtTime(Timestamp::from_nanos(9))),
        Some((true, 9))
    );
    for e in [
        Expiration::Never,
        Expiration::AtHeight(0),
        Expiration::AtHeight(u64::MAX),
        Expiration::AtTime(Timestamp::from_nanos(0)),
        Expiration::AtTime(Timestamp::from_nanos(u64::MAX)),
    ] {
        assert_eq!(expiration_from_record(expiration_to_record(e)), e);
    }
}

#[test]
fn records_hold_what_the_values_hold() {
    let state = config(5);
    let record = state.to_record();
    assert_eq!(record, ("TestNFT".to_string(), "NFT".to_string(), "minter".to_string(), 5));
    assert_eq!(State::from_record(record), state);

    let mut t = token(
        "owner",
        vec![approval("one", Expiration::Never), approval("two", Expiration::AtHeight(2))],
    );
    t.token_uri = Some("uri".to_string());
    let record = t.to_record();
    assert_eq!(
        record,
        (
            "owner".to_string(),
            vec![("one".to_string(), None), ("two".to_string(), Some((false, 2)))],
            vec![(1000u128, "ubit".to_string())],
            Some("uri".to_string()),
            4u64,
        )
    );
    assert_eq!(TokenInfo::from_record(&record), t);
}

#[test]
fn approvals_are_found_granted_and_taken_back() {
    let mut list = vec![
        approval("one", Expiration::Never),
        approval("two", Expiration::AtHeight(2)),
        approval("one", Expiration::AtHeight(1)),
    ];
    assert_eq!(find_approval(&list, &"one".to_string()), Some(0));
    assert_eq!(find_approval(&list, &"two".to_string()), Some(1));
    assert_eq!(find_approval(&list, &"three".to_string()), None);
    assert_eq!(find_approval(&vec![], &"one".to_string()), None);

    grant_approval(&mut list, approval("two", Expiration::AtHeight(20)));
    grant_approval(&mut list, approval("three", Expiration::Never));
    assert_eq!(
        list,
        vec![
            approval("one", Expiration::Never),
            approval("two", Expiration::AtHeight(20)),
            approval("one", Expiration::AtHeight(1)),
            approval("three", Expiration::Never),
        ]
    );
    assert!(revoke_approval(&mut list, &"one".to_string()));
    assert_eq!(
        list,
        vec![
            approval("two", Expiration::AtHeight(20)),
            approval("one", Expiration::AtHeight(1)),
            approval("three", Expiration::Never),
        ]
    );
    assert!(!revoke_approval(&mut list, &"four".to_string()));
    assert_eq!(list.len(), 3);
}

#[test]
fn approvals_are_shown_and_honored_until_they_expire() {
    let list = vec![
        approval("one", Expiration::AtHeight(10)),
        approval("two", Expiration::Never),
        approval("three", Expiration::AtTime(Timestamp::from_nanos(50))),
    ];
    let now = block(10, 49);
    assert_eq!(shown_approvals(&list, &now, false), vec![list[1].clone(), list[2].clone()]);
    assert_eq!(shown_approvals(&list, &now, true), list);
    assert_eq!(shown_approvals(&list, &block(10, 50), false), vec![list[1].clone()]);
    assert_eq!(shown_approvals(&vec![], &now, false), vec![]);
    assert!(!has_live_approval(&list, &Addr::unchecked("one"), &now));
    assert!(has_live_approval(&list, &Addr::unchecked("one"), &block(9, 0)));
    assert!(has_live_approval(&list, &Addr::unchecked("two"), &now));
    assert!(has_live_approval(&list, &Addr::unchecked("three"), &now));
    assert!(!has_live_approval(&list, &Addr::unchecked("four"), &now));
    // a later approval that is still good counts
    let twice =
        vec![approval("one", Expiration::AtHeight(10)), approval("one", Expiration::Never)];
    assert!(has_live_approval(&twice, &Addr::unchecked("one"), &now));
}

#[test]
fn prices_hold_a_coin_and_no_zero() {
    assert_eq!(
        check_price(&vec![]).unwrap_err(),
        ContractError::CustomError { val: "price cannot be empty".to_string() }
    );
    assert_eq!(
        check_price(&vec![Coin::new(0, "ubit")]).unwrap_err(),
        ContractError::CustomError { val: "price cannot be zero".to_string() }
    );
    assert_eq!(
        check_price(&vec![Coin::new(1, "ubit"), Coin::new(2, "uatom"), Coin::new(0, "ubit")])
            .unwrap_err(),
        ContractError::CustomError { val: "price cannot be zero".to_string() }
    );
    check_price(&vec![Coin::new(1, "ubit")]).unwrap();
    check_price(&vec![Coin::new(u128::MAX, "ubit"), Coin::new(1, "")]).unwrap();
    let coins = vec![Coin::new(3, "ubit"), Coin::new(4, "uatom")];
    assert_eq!(clone_coins(&coins), coins);
}

#[test]
fn set_up_looks_at_name_and_symbol_before_the_minter() {
    let msg = |name: &str, symbol: &str| InstantiateMsg {
        name: name.to_string(),
        symbol: symbol.to_string(),
    };
    assert_eq!(
        set_up(msg("TestNFT", "NFT"), Ok(Addr::unchecked("minter"))).unwrap(),
        config(0)
    );
    assert_eq!(
        set_up(msg("", "NFT"), Err(host_error())).unwrap_err(),
        ContractError::CustomError { val: "length of `name` should be greater than 1".to_string() }
    );
    assert_eq!(
        set_up(msg("", ""), Ok(Addr::unchecked("minter"))).unwrap_err(),
        ContractError::CustomError { val: "length of `name` should be greater than 1".to_string() }
    );
    assert_eq!(
        set_up(msg("TestNFT", ""), Err(host_error())).unwrap_err(),
        ContractError::CustomError {
            val: "length of `symbol` should be greater than 1".to_string()
        }
    );
    assert_eq!(
        set_up(msg("TestNFT", "NFT"), Err(host_error())).unwrap_err(),
        ContractError::Std(host_error())
    );
}

fn request(owner: &str, price: Vec<Coin>) -> MintMsg {
    MintMsg { owner: owner.to_string(), token_uri: Some("uri".to_string()), price }
}

#[test]
fn mint_decides_in_order() {
    let minter = Addr::unchecked("minter");
    let price = vec![Coin::new(1000, "ubit")];
    let (state, minted, response) = mint(
        config(41),
        &minter,
        request("creator", price.clone()),
        Ok(Addr::unchecked("creator")),
    )
    .unwrap();
    assert_eq!(state, config(42));
    assert_eq!(
        minted,
        TokenInfo {
            owner: Addr::unchecked("creator"),
            approvals: vec![],
            base_price: price.clone(),
            token_uri: Some("uri".to_string()),
            token_id: 42,
        }
    );
    assert_eq!(
        response,
        Response {
            messages: vec![],
            attributes: vec![
                attribute("action", "mint"),
                attribute("from", "minter"),
                attribute("owner", "creator"),
                attribute("token_id", "42"),
            ],
        }
    );
    let other = Addr::unchecked("other");
    assert_eq!(
        mint(config(0), &other, request("creator", vec![]), Err(host_error())).unwrap_err(),
        ContractError::Unauthorized
    );
    assert_eq!(
        mint(config(u64::MAX), &minter, request("creator", vec![]), Err(host_error()))
            .unwrap_err(),
        ContractError::CustomError { val: "price cannot be empty".to_string() }
    );
    assert_eq!(
        mint(config(u64::MAX), &minter, request("creator", price.clone()), Err(host_error()))
            .unwrap_err(),
        ContractError::CustomError { val: "token ids are used up".to_string() }
    );
    assert_eq!(
        mint(config(u64::MAX - 1), &minter, request("creator", price.clone()), Err(host_error()))
            .unwrap_err(),
        ContractError::Std(host_error())
    );
    let (state, minted, _) = mint(
        config(u64::MAX - 1),
        &minter,
        request("creator", price),
        Ok(Addr::unchecked("creator")),
    )
    .unwrap();
    assert_eq!(state.num_tokens, u64::MAX);
    assert_eq!(minted.token_id, u64::MAX);
}

#[test]
fn authorize_asks_for_the_grant_last() {
    let now = block(10, 0);
    let t = token("owner", vec![approval("friend", Expiration::AtHeight(11))]);
    let owner = Addr::unchecked("owner");
    let friend = Addr::unchecked("friend");
    let other = Addr::unchecked("other");
    authorize(&t, Err(host_error()), &owner, &now).unwrap();
    authorize(&t, Ok(None), &owner, &now).unwrap();
    authorize(&t, Err(host_error()), &friend, &now).unwrap();
    assert_eq!(
        authorize(&t, Err(host_error()), &friend, &block(11, 0)).unwrap_err(),
        ContractError::Std(host_error())
    );
    assert_eq!(
        authorize(&t, Ok(None), &friend, &block(11, 0)).unwrap_err(),
        ContractError::Unauthorized
    );
    assert_eq!(authorize(&t, Ok(None), &other, &now).unwrap_err(), ContractError::Unauthorized);
    assert_eq!(
        authorize(&t, Err(host_error()), &other, &now).unwrap_err(),
        ContractError::Std(host_error())
    );
    authorize(&t, Ok(Some(Expiration::Never)), &other, &now).unwrap();
    authorize(&t, Ok(Some(Expiration::AtHeight(11))), &other, &now).unwrap();
    assert_eq!(
        authorize(&t, Ok(Some(Expiration::AtHeight(10))), &other, &now).unwrap_err(),
        ContractError::Unauthorized
    );
}

#[test]
fn transfer_hands_the_token_over_without_its_approvals() {
    let now = block(10, 0);
    let owner = Addr::unchecked("owner");
    let mut t = token("owner", vec![approval("friend", Expiration::Never)]);
    t.token_uri = Some("uri".to_string());
    let (moved, response) =
        transfer(t.clone(), Ok(None), &owner, Ok(Addr::unchecked("recipient")), 4, &now).unwrap();
    assert_eq!(
        moved,
        TokenInfo { owner: Addr::unchecked("recipient"), approvals: vec![], ..t.clone() }
    );
    assert_eq!(
        response.attributes,
        vec![
            attribute("action", "transfer_nft"),
            attribute("from", "owner"),
            attribute("to", "recipient"),
            attribute("token_id", "4"),
        ]
    );
    assert!(response.messages.is_empty());
    // the right to transfer is looked at before the recipient
    assert_eq!(
        transfer(t.clone(), Ok(None), &Addr::unchecked("other"), Err(host_error()), 4, &now)
            .unwrap_err(),
        ContractError::Unauthorized
    );
    assert_eq!(
        transfer(t, Ok(None), &owner, Err(host_error()), 4, &now).unwrap_err(),
        ContractError::Std(host_error())
    );
}

#[test]
fn send_adds_the_message_to_a_transfer() {
    let now = block(10, 0);
    let owner = Addr::unchecked("owner");
    let t = token("owner", vec![approval("friend", Expiration::Never)]);
    let message: CosmosMsg = WasmMsg::Execute {
        contract_addr: "market".to_string(),
        msg: cosmwasm_std::Binary(vec![7]),
        funds: vec![],
    }
    .into();
    let (moved, response) = send(
        t.clone(),
        Ok(None),
        &owner,
        Ok(Addr::unchecked("market")),
        4,
        &now,
        Ok(message.clone()),
    )
    .unwrap();
    assert_eq!(moved.owner, Addr::unchecked("market"));
    assert_eq!(moved.approvals, vec![]);
    assert_eq!(response.messages, vec![message.clone()]);
    assert_eq!(
        response.attributes,
        vec![
            attribute("action", "send_nft"),
            attribute("from", "owner"),
            attribute("to", "market"),
            attribute("token_id", "4"),
        ]
    );
    assert_eq!(
        send(
            t.clone(),
            Ok(None),
            &owner,
            Ok(Addr::unchecked("market")),
            4,
            &now,
            Err(host_error())
        )
        .unwrap_err(),
        ContractError::Std(host_error())
    );
    assert_eq!(
        send(
            t,
            Ok(None),
            &Addr::unchecked("other"),
            Ok(Addr::unchecked("market")),
            4,
            &now,
            Ok(message)
        )
        .unwrap_err(),
        ContractError::Unauthorized
    );
}

#[test]
fn approve_decides_in_order() {
    let now = block(10, 0);
    let owner = Addr::unchecked("owner");
    let t = token("owner", vec![approval("friend", Expiration::Never)]);
    let (approved, response) = approve(
        t.clone(),
        &owner,
        Ok(Addr::unchecked("other")),
        4,
        Some(Expiration::AtHeight(11)),
        &now,
    )
    .unwrap();
    assert_eq!(
        approved.approvals,
        vec![approval("friend", Expiration::Never), approval("other", Expiration::AtHeight(11))]
    );
    assert_eq!(approved.owner, t.owner);
    assert_eq!(
        response.attributes,
        vec![
            attribute("action", "approve"),
            attribute("from", "owner"),
            attribute("approved", "other"),
            attribute("token_id", "4"),
        ]
    );
    let (approved, _) =
        approve(t.clone(), &owner, Ok(Addr::unchecked("other")), 4, None, &now).unwrap();
    assert_eq!(approved.approvals[1], approval("other", Expiration::Never));
    assert_eq!(
        approve(
            t.clone(),
            &Addr::unchecked("friend"),
            Err(host_error()),
            4,
            Some(Expiration::AtHeight(1)),
            &now
        )
        .unwrap_err(),
        ContractError::Unauthorized
    );
    assert_eq!(
        approve(t.clone(), &owner, Err(host_error()), 4, Some(Expiration::AtHeight(1)), &now)
            .unwrap_err(),
        ContractError::Std(host_error())
    );
    assert_eq!(
        approve(
            t,
            &owner,
            Ok(Addr::unchecked("other")),
            4,
            Some(Expiration::AtHeight(10)),
            &now
        )
        .unwrap_err(),
        ContractError::Expired
    );
}

#[test]
fn revoke_decides_in_order() {
    let owner = Addr::unchecked("owner");
    let t = token(
        "owner",
        vec![approval("friend", Expiration::Never), approval("other", Expiration::Never)],
    );
    let (kept, response) = revoke(t.clone(), &owner, "friend".to_string(), 4).unwrap();
    assert_eq!(kept.approvals, vec![approval("other", Expiration::Never)]);
    assert_eq!(
        response.attributes,
        vec![
            attribute("action", "revoke"),
            attribute("from", "owner"),
            attribute("revoked", "friend"),
            attribute("token_id", "4"),
        ]
    );
    assert_eq!(
        revoke(t.clone(), &Addr::unchecked("friend"), "nobody".to_string(), 4).unwrap_err(),
        ContractError::Unauthorized
    );
    assert_eq!(
        revoke(t, &owner, "nobody".to_string(), 4).unwrap_err(),
        ContractError::ApprovalNotFound { operator: "nobody".to_string() }
    );
}

#[test]
fn approve_all_decides_in_order() {
    let now = block(10, 0);
    let owner = Addr::unchecked("owner");
    let (stored, response) =
        approve_all(None, &owner, "operator".to_string(), None, &now).unwrap();
    assert_eq!(stored, Expiration::Never);
    assert_eq!(
        response.attributes,
        vec![
            attribute("action", "approve_all"),
            attribute("from", "owner"),
            attribute("approved", "operator"),
        ]
    );
    let (stored, _) = approve_all(
        Some(Expiration::Never),
        &owner,
        "operator".to_string(),
        Some(Expiration::AtHeight(11)),
        &now,
    )
    .unwrap();
    assert_eq!(stored, Expiration::AtHeight(11));
    assert_eq!(
        approve_all(Some(Expiration::Never), &owner, "operator".to_string(), None, &now)
            .unwrap_err(),
        ContractError::OperatorApproved { operator: "operator".to_string() }
    );
    assert_eq!(
        approve_all(
            Some(Expiration::AtHeight(10)),
            &owner,
            "operator".to_string(),
            Some(Expiration::AtHeight(10)),
            &now
        )
        .unwrap_err(),
        ContractError::OperatorApproved { operator: "operator".to_string() }
    );
    assert_eq!(
        approve_all(
            Some(Expiration::AtHeight(9)),
            &owner,
            "operator".to_string(),
            Some(Expiration::AtHeight(10)),
            &now
        )
        .unwrap_err(),
        ContractError::Expired
    );
    let long = Addr::unchecked("a".repeat(0x1_0000).as_str());
    assert_eq!(
        approve_all(None, &long, "operator".to_string(), Some(Expiration::AtHeight(10)), &now)
            .unwrap_err(),
        ContractError::Expired
    );
    assert_eq!(
        approve_all(None, &long, "operator".to_string(), None, &now).unwrap_err(),
        ContractError::CustomError { val: "sender cannot hold grants".to_string() }
    );
}

#[test]
fn revoke_all_needs_a_grant() {
    let owner = Addr::unchecked("owner");
    let response = revoke_all(true, &owner, "operator".to_string()).unwrap();
    assert_eq!(
        response,
        Response {
            messages: vec![],
            attributes: vec![
                attribute("action", "revoke_all"),
                attribute("from", "owner"),
                attribute("revoked", "operator"),
            ],
        }
    );
    assert_eq!(
        revoke_all(false, &owner, "operator".to_string()).unwrap_err(),
        ContractError::ApprovalNotFound { operator: "operator".to_string() }
    );
}

#[test]
fn responses_grow_at_the_end() {
    let response = Response::new();
    assert!(response.messages.is_empty() && response.attributes.is_empty());
    assert_eq!(Response::default(), Response::new());
    let response =
        response.add_attribute("one", "1".to_string()).add_attribute("two", "2".to_string());
    assert_eq!(response.attributes, vec![attribute("one", "1"), attribute("two", "2")]);
    let message: CosmosMsg = WasmMsg::Execute {
        contract_addr: "market".to_string(),
        msg: cosmwasm_std::Binary(vec![]),
        funds: vec![],
    }
    .into();
    let response = response.add_message(message.clone());
    assert_eq!(response.messages, vec![message]);
    assert_eq!(response.attributes.len(), 2);
}

#[test]
fn answers_are_made_of_the_records() {
    let now = block(10, 0);
    let mut t = token(
        "owner",
        vec![
            approval("gone", Expiration::AtHeight(10)),
            approval("friend", Expiration::Never),
            approval("gone", Expiration::Never),
        ],
    );
    assert_eq!(asking_price(&t).price, vec![Coin::new(1000, "ubit")]);
    let shown = owner_of(&t, &now, None);
    assert_eq!(shown.owner, "owner");
    assert_eq!(shown.approvals, vec![t.approvals[1].clone(), t.approvals[2].clone()]);
    assert_eq!(owner_of(&t, &now, Some(true)).approvals, t.approvals);
    assert_eq!(approvals_of(&t, &now, Some(false)).approval.len(), 2);
    assert_eq!(approvals_of(&t, &now, Some(true)).approval, t.approvals);
    assert_eq!(nft_info(&t).token_uri, "None");
    t.token_uri = Some("uri".to_string());
    assert_eq!(nft_info(&t).token_uri, "uri");
    let all = all_nft_info(&t, &now, None);
    assert_eq!(all.owner, owner_of(&t, &now, None));
    assert_eq!(all.info.token_uri, "uri");
    assert_eq!(num_tokens(&config(9)).tokens, 9);
    let shown = contract_info(config(9));
    assert_eq!((shown.name.as_str(), shown.symbol.as_str()), ("TestNFT", "NFT"));

    // the first approval for the operator is the one that counts
    let missing = StdError::not_found("Approval not found for given address");
    assert_eq!(
        approval_for(&t, Ok(Addr::unchecked("gone")), &now, None).unwrap_err(),
        missing
    );
    assert_eq!(
        approval_for(&t, Ok(Addr::unchecked("gone")), &now, Some(true)).unwrap(),
        ApprovedResponse { approval: approval("gone", Expiration::AtHeight(10)) }
    );
    assert_eq!(
        approval_for(&t, Ok(Addr::unchecked("friend")), &now, None).unwrap(),
        ApprovedResponse { approval: approval("friend", Expiration::Never) }
    );
    assert_eq!(
        approval_for(&t, Ok(Addr::unchecked("nobody")), &now, Some(true)).unwrap_err(),
        missing
    );
    assert_eq!(approval_for(&t, Err(host_error()), &now, Some(true)).unwrap_err(), host_error());
}

#[test]
fn pages_are_filled_with_what_is_shown() {
    let now = block(10, 0);
    let listing: Vec<Approval> = (0..6u64)
        .map(|n| {
            let expires = if n % 2 == 0 {
                Expiration::AtHeight(10)
            } else {
                Expiration::Never
            };
            approval(&format!("op{:02}", n), expires)
        })
        .collect();
    assert_eq!((DEFAULT_LIMIT, MAX_LIMIT), (10, 30));
    assert_eq!(page_size(None), 10);
    assert_eq!(page_size(Some(0)), 0);
    assert_eq!(page_size(Some(29)), 29);
    assert_eq!(page_size(Some(30)), 30);
    assert_eq!(page_size(Some(31)), 30);
    assert_eq!(page_size(Some(u32::MAX)), 30);

    let first = OperatorApproval { spender: "first".to_string(), expires: Expiration::Never };
    let mut page = vec![first.clone()];
    extend_page(&mut page, &listing, &now, None);
    assert_eq!(
        page,
        vec![
            first.clone(),
            OperatorApproval { spender: "op01".to_string(), expires: Expiration::Never },
            OperatorApproval { spender: "op03".to_string(), expires: Expiration::Never },
            OperatorApproval { spender: "op05".to_string(), expires: Expiration::Never },
        ]
    );
    let mut page = vec![];
    extend_page(&mut page, &listing, &now, Some(true));
    assert_eq!(page.len(), 6);
    assert_eq!(page[0].spender, "op00");
    assert_eq!(page[0].expires, Expiration::AtHeight(10));
    let mut page = vec![first.clone()];
    extend_page(&mut page, &vec![], &now, Some(true));
    assert_eq!(page, vec![first]);
    assert_eq!(
        parse_approval(approval("op", Expiration::AtHeight(3))),
        OperatorApproval { spender: "op".to_string(), expires: Expiration::AtHeight(3) }
    );
}

#[test]
fn host_answers_become_addresses() {
    assert_eq!(accepted(Ok("alice".to_string())).unwrap(), Addr::unchecked("alice"));
    assert_eq!(accepted(Err(host_error())).unwrap_err(), host_error());
    assert_eq!(
        accepted_maybe(Ok(Some("alice".to_string()))).unwrap(),
        Some(Addr::unchecked("alice"))
    );
    assert_eq!(accepted_maybe(Ok(None)).unwrap(), None);
    assert_eq!(accepted_maybe(Err(host_error())).unwrap_err(), host_error());
}

#[test]
fn stored_grants_become_approvals_in_their_order() {
    let records = vec![
        ("bob".to_string(), None),
        ("alice".to_string(), Some((false, 7))),
        ("carol".to_string(), Some((true, 9))),
    ];
    assert_eq!(
        grants_of_records(&records),
        vec![
            approval("bob", Expiration::Never),
            approval("alice", Expiration::AtHeight(7)),
            approval("carol", Expiration::AtTime(Timestamp::from_nanos(9))),
        ]
    );
    assert_eq!(grants_of_records(&vec![]), vec![]);
}
