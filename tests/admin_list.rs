use cosmwasm_std::testing::MockApi;
use cosmwasm_std::{
    coin, coins, Api, BankMsg, Binary, CosmosMsg, Empty, StakingMsg, WasmMsg,
};
use cw_ledger::admin_list::{
    execute, instantiate, map_validate, query, query_admin_list, query_can_execute, AdminList,
    AdminListResponse, CanExecuteResponse, Checked, ExecuteMsg, QueryMsg, QueryResponse,
};
use cw_ledger::error::ContractError;
use cw_ledger::response::Attribute;

/// The mock host's answer for each identity.
fn checked(list: &[&str]) -> Vec<Checked> {
    let api = MockApi::default();
    list.iter()
        .map(|s| {
            api.addr_validate(s)
                .map(|a| a.into_string())
                .map_err(|e| e.to_string())
        })
        .collect()
}

fn strings(list: &[&str]) -> Vec<String> {
    list.iter().map(|s| s.to_string()).collect()
}

#[test]
fn instantiate_and_modify_config() {
    let alice = "alice";
    let bob = "bob";
    let carl = "carl";

    let anyone = "anyone";

    // instantiate the contract
    let mut cfg = instantiate(&checked(&[alice, bob, carl]), true).unwrap();

    // ensure expected config
    let expected = AdminListResponse {
        admins: vec![alice.to_string(), bob.to_string(), carl.to_string()],
        mutable: true,
    };
    assert_eq!(query_admin_list(&cfg), expected);

    // anyone cannot modify the contract
    let msg = ExecuteMsg::<Empty>::UpdateAdmins { admins: checked(&[anyone]) };
    let err = execute(&mut cfg, &anyone.to_string(), msg).unwrap_err();
    assert_eq!(err, ContractError::Unauthorized);

    // but alice can kick out carl
    let msg = ExecuteMsg::<Empty>::UpdateAdmins { admins: checked(&[alice, bob]) };
    execute(&mut cfg, &alice.to_string(), msg).unwrap();

    // ensure expected config
    let expected = AdminListResponse {
        admins: vec![alice.to_string(), bob.to_string()],
        mutable: true,
    };
    assert_eq!(query_admin_list(&cfg), expected);

    // carl cannot freeze it
    let err = execute(&mut cfg, &carl.to_string(), ExecuteMsg::<Empty>::Freeze {}).unwrap_err();
    assert_eq!(err, ContractError::Unauthorized);

    // but bob can
    execute(&mut cfg, &bob.to_string(), ExecuteMsg::<Empty>::Freeze {}).unwrap();
    let expected = AdminListResponse {
        admins: vec![alice.to_string(), bob.to_string()],
        mutable: false,
    };
    assert_eq!(query_admin_list(&cfg), expected);

    // and now alice cannot change it again
    let msg = ExecuteMsg::<Empty>::UpdateAdmins { admins: checked(&[alice]) };
    let err = execute(&mut cfg, &alice.to_string(), msg).unwrap_err();
    assert_eq!(err, ContractError::Unauthorized);
}

#[test]
fn execute_messages_has_proper_permissions() {
    let alice = "alice";
    let bob = "bob";
    let carl = "carl";

    // instantiate the contract
    let mut cfg = instantiate(&checked(&[alice, carl]), false).unwrap();

    // the JSON encoding of a freeze message
    let freeze = Binary::from(br#"{"freeze":{}}"#.to_vec());
    let msgs: Vec<CosmosMsg<Empty>> = vec![
        BankMsg::Send {
            to_address: bob.to_string(),
            amount: coins(10000, "DAI"),
        }
        .into(),
        WasmMsg::Execute {
            contract_addr: "some contract".into(),
            msg: freeze,
            funds: vec![],
        }
        .into(),
    ];

    // bob cannot execute them
    let execute_msg = ExecuteMsg::Execute { msgs: msgs.clone() };
    let err = execute(&mut cfg, &bob.to_string(), execute_msg).unwrap_err();
    assert_eq!(err, ContractError::Unauthorized);

    // but carl can
    let execute_msg = ExecuteMsg::Execute { msgs: msgs.clone() };
    let res = execute(&mut cfg, &carl.to_string(), execute_msg).unwrap();
    assert_eq!(res.messages, msgs);
    assert_eq!(
        res.attributes,
        vec![Attribute { key: "action".to_string(), value: "execute".to_string() }]
    );
}

#[test]
fn can_execute_query_works() {
    let alice = "alice";
    let bob = "bob";

    let anyone = "anyone";

    // instantiate the contract
    let cfg = instantiate(&checked(&[alice, bob]), false).unwrap();

    // let us make some queries... different msg types by owner and by other
    let send_msg: CosmosMsg = CosmosMsg::Bank(BankMsg::Send {
        to_address: anyone.to_string(),
        amount: coins(12345, "ushell"),
    });
    let staking_msg: CosmosMsg = CosmosMsg::Staking(StakingMsg::Delegate {
        validator: anyone.to_string(),
        amount: coin(70000, "ureef"),
    });

    // owner can send
    let res = query_can_execute(&cfg, alice.to_string(), send_msg.clone());
    assert!(res.can_execute);

    // owner can stake
    let res = query_can_execute(&cfg, bob.to_string(), staking_msg.clone());
    assert!(res.can_execute);

    // anyone cannot send
    let res = query_can_execute(&cfg, anyone.to_string(), send_msg);
    assert!(!res.can_execute);

    // anyone cannot stake
    let res = query_can_execute(&cfg, anyone.to_string(), staking_msg);
    assert!(!res.can_execute);
}

#[test]
fn can_modify_needs_membership_and_mutability() {
    let open = AdminList { admins: strings(&["alice", "bob"]), mutable: true };
    let frozen = AdminList { admins: strings(&["alice", "bob"]), mutable: false };
    assert!(open.can_modify(&"alice".to_string()));
    assert!(!open.can_modify(&"carl".to_string()));
    assert!(!frozen.can_modify(&"alice".to_string()));
    assert!(!frozen.can_modify(&"carl".to_string()));
    assert!(frozen.is_admin(&"bob".to_string()));
}

#[test]
fn freeze_is_final_for_every_caller() {
    let mut cfg = instantiate(&checked(&["alice", "bob"]), true).unwrap();
    let res = execute(&mut cfg, &"alice".to_string(), ExecuteMsg::<Empty>::Freeze {}).unwrap();
    assert!(res.messages.is_empty());
    assert_eq!(
        res.attributes,
        vec![Attribute { key: "action".to_string(), value: "freeze".to_string() }]
    );
    let before = cfg.clone();
    for who in ["alice", "bob", "carl"] {
        let err = execute(&mut cfg, &who.to_string(), ExecuteMsg::<Empty>::Freeze {}).unwrap_err();
        assert_eq!(err, ContractError::Unauthorized);
        let msg = ExecuteMsg::<Empty>::UpdateAdmins { admins: checked(&["carl"]) };
        let err = execute(&mut cfg, &who.to_string(), msg).unwrap_err();
        assert_eq!(err, ContractError::Unauthorized);
    }
    assert_eq!(cfg, before);
}

#[test]
fn update_replaces_roster_wholesale() {
    let mut cfg = instantiate(&checked(&["alice", "bob", "carl"]), true).unwrap();
    let msg = ExecuteMsg::<Empty>::UpdateAdmins { admins: checked(&["dave", "dave", "erin"]) };
    let res = execute(&mut cfg, &"carl".to_string(), msg).unwrap();
    assert_eq!(
        res.attributes,
        vec![Attribute { key: "action".to_string(), value: "update_admins".to_string() }]
    );
    let listed = query_admin_list(&cfg);
    assert_eq!(listed.admins, strings(&["dave", "dave", "erin"]));
    assert!(listed.mutable);
    // carl left the roster and lost every right with it
    let err = execute(&mut cfg, &"carl".to_string(), ExecuteMsg::<Empty>::Freeze {}).unwrap_err();
    assert_eq!(err, ContractError::Unauthorized);
}

#[test]
fn update_to_empty_roster_locks_everyone_out() {
    let mut cfg = instantiate(&checked(&["alice"]), true).unwrap();
    let msg = ExecuteMsg::<Empty>::UpdateAdmins { admins: vec![] };
    execute(&mut cfg, &"alice".to_string(), msg).unwrap();
    assert!(query_admin_list(&cfg).admins.is_empty());
    let err = execute(&mut cfg, &"alice".to_string(), ExecuteMsg::<Empty>::Freeze {}).unwrap_err();
    assert_eq!(err, ContractError::Unauthorized);
}

#[test]
fn execute_rights_survive_freeze() {
    let mut cfg = instantiate(&checked(&["alice", "bob"]), true).unwrap();
    execute(&mut cfg, &"bob".to_string(), ExecuteMsg::<Empty>::Freeze {}).unwrap();
    let msgs: Vec<u32> = vec![3, 1, 2];
    let res = execute(&mut cfg, &"alice".to_string(), ExecuteMsg::Execute { msgs: msgs.clone() })
        .unwrap();
    assert_eq!(res.messages, msgs);
    let answer = query(&cfg, QueryMsg::CanExecute { sender: "alice".to_string(), msg: 0u8 });
    assert_eq!(answer, QueryResponse::CanExecute(CanExecuteResponse { can_execute: true }));
}

#[test]
fn invalid_address_is_rejected() {
    let err = instantiate(&checked(&["alice", "Bob", "x"]), true).unwrap_err();
    let expected = MockApi::default().addr_validate("Bob").unwrap_err().to_string();
    assert_eq!(err, ContractError::InvalidAddress { msg: expected });

    let given: Vec<Checked> = vec![
        Ok("alice".to_string()),
        Err("first".to_string()),
        Err("second".to_string()),
    ];
    assert_eq!(
        map_validate(&given),
        Err(ContractError::InvalidAddress { msg: "first".to_string() })
    );
    let all_good: Vec<Checked> = vec![Ok("alice".to_string()), Ok("alice".to_string())];
    assert_eq!(map_validate(&all_good), Ok(strings(&["alice", "alice"])));
}

#[test]
fn failed_update_leaves_roster_alone() {
    let mut cfg = instantiate(&checked(&["alice", "bob"]), true).unwrap();
    let before = cfg.clone();
    let msg = ExecuteMsg::<Empty>::UpdateAdmins { admins: checked(&["carl", "X"]) };
    let err = execute(&mut cfg, &"alice".to_string(), msg).unwrap_err();
    assert!(matches!(err, ContractError::InvalidAddress { .. }));
    assert_eq!(cfg, before);
}

#[test]
fn admin_list_query() {
    let cfg = instantiate(&checked(&["bob", "alice", "bob"]), false).unwrap();
    let answer = query(&cfg, QueryMsg::<Empty>::AdminList {});
    assert_eq!(
        answer,
        QueryResponse::AdminList(AdminListResponse {
            admins: strings(&["bob", "alice", "bob"]),
            mutable: false,
        })
    );
}
