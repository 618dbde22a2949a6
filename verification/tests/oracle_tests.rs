use oracle_contracts::oracle::{
    execute, instantiate, query, ExecuteMsg, InstantiateMsg, OracleValue, QueryAnswer, QueryMsg,
    State,
};
use oracle_contracts::types::{Coin, ContractError, Env, MessageInfo};

fn coins(amount: u128, denom: &str) -> Vec<Coin> {
    vec![Coin {
        denom: denom.to_string(),
        amount,
    }]
}

fn mock_env() -> Env {
    Env {
        block_time: 1_571_797_419,
        contract_address: "cosmos2contract".to_string(),
    }
}

fn mock_info(sender: &str, funds: &[Coin]) -> MessageInfo {
    MessageInfo {
        sender: sender.to_string(),
        funds: funds.to_vec(),
    }
}

fn init_msg(fee: u128) -> InstantiateMsg {
    InstantiateMsg { fee }
}

fn init_contract(fee: u128) -> (State, OracleValue) {
    let info = mock_info("creator", &coins(1000, "earth"));
    let (state, value, res) = instantiate(&info, &init_msg(fee)).unwrap();
    assert_eq!(0, res.messages.len());
    (state, value)
}

#[test]
fn test_proper_initialization() {
    let info = mock_info("creator", &coins(1000, "earth"));
    let msg = init_msg(100);
    let (_state, _value, res) = instantiate(&info, &msg).unwrap();
    assert_eq!(0, res.messages.len());
}

#[test]
fn test_update_success() {
    let (mut state, mut value) = init_contract(100);

    let msg = ExecuteMsg::GrantOracleRole {
        address: "oracle".to_string(),
    };
    let env = mock_env();
    let info = mock_info("creator", &coins(1000, "earth"));
    let res = execute(&mut state, &mut value, &env, &info, msg).unwrap();
    assert_eq!(0, res.messages.len());

    let ov = OracleValue {
        value: 0,
        decimals: 0,
        timestamp: 0,
    };
    assert_eq!("oracle", state.oracle);
    assert_eq!(ov, value);

    let msg = ExecuteMsg::UpdateOracleValue {
        value: 100000,
        decimals: 5,
    };
    let env = mock_env();
    let info = mock_info("creator", &coins(1000, "earth"));
    let res = execute(&mut state, &mut value, &env, &info, msg).unwrap();
    assert_eq!(0, res.messages.len());

    let ov = OracleValue {
        value: 100000,
        decimals: 5,
        timestamp: mock_env().block_time,
    };
    assert_eq!(ov, value);

    let msg = ExecuteMsg::QueryOracleValue {};
    let env = mock_env();
    let info = mock_info("oracle", &coins(1000, "earth"));
    let res = execute(&mut state, &mut value, &env, &info, msg).unwrap();

    assert_eq!("oracle-value", res.attributes[0].key);
    assert_eq!("100000", res.attributes[0].value);
    assert_eq!("decimals", res.attributes[1].key);
    assert_eq!("5", res.attributes[1].value);
    assert_eq!("timestamp", res.attributes[2].key);

    assert_eq!(3, res.attributes.len());
}

#[test]
fn test_withdraw_fees_success() {
    let (mut state, mut value) = init_contract(100);

    state.fees_accrued = 1000;

    let msg = ExecuteMsg::WithdrawFees { amount: 900 };
    let env = mock_env();
    let info = mock_info("creator", &coins(1000, "earth"));
    let res = execute(&mut state, &mut value, &env, &info, msg).unwrap();

    assert_eq!(1, res.messages.len());
    assert_eq!(state.owner, res.messages[0].to_address);
    assert_eq!(900, res.messages[0].amount);
    assert_eq!(state.denom, res.messages[0].denom);

    assert_eq!(state.fees_accrued, 100);
}

#[test]
fn instantiate_without_funds_fails() {
    let info = mock_info("creator", &[]);
    let res = instantiate(&info, &init_msg(100));
    assert!(matches!(res, Err(ContractError::ConfigurationError)));
}

#[test]
fn instantiate_takes_denom_from_first_entry() {
    let funds = vec![
        Coin {
            denom: "mars".to_string(),
            amount: 5,
        },
        Coin {
            denom: "earth".to_string(),
            amount: 1000,
        },
    ];
    let info = mock_info("creator", &funds);
    let (state, value, _res) = instantiate(&info, &init_msg(7)).unwrap();
    assert_eq!("mars", state.denom);
    assert_eq!(0, state.fees_accrued);
    assert_eq!(7, state.fee);
    assert_eq!("creator", state.owner);
    assert_eq!("creator", state.oracle);
    assert_eq!(
        OracleValue {
            value: 0,
            decimals: 0,
            timestamp: 0
        },
        value
    );
}

#[test]
fn admin_ops_reject_non_owner() {
    let (mut state, mut value) = init_contract(100);
    state.fees_accrued = 500;
    let env = mock_env();
    let info = mock_info("mallory", &coins(1000, "earth"));

    let msgs = vec![
        ExecuteMsg::GrantOracleRole {
            address: "mallory".to_string(),
        },
        ExecuteMsg::SetFee { amount: 0 },
        ExecuteMsg::WithdrawFees { amount: 1 },
    ];
    for msg in msgs {
        let res = execute(&mut state, &mut value, &env, &info, msg);
        assert!(matches!(res, Err(ContractError::Unauthorized)));
        assert_eq!("creator", state.oracle);
        assert_eq!("creator", state.owner);
        assert_eq!(100, state.fee);
        assert_eq!(500, state.fees_accrued);
        assert_eq!("earth", state.denom);
    }
}

#[test]
fn query_value_free_when_fee_zero() {
    let (mut state, mut value) = init_contract(0);
    let env = mock_env();

    let info = mock_info("anyone", &[]);
    let res = execute(
        &mut state,
        &mut value,
        &env,
        &info,
        ExecuteMsg::QueryOracleValue {},
    );
    assert!(res.is_ok());
    assert_eq!(0, state.fees_accrued);

    let info = mock_info("anyone", &coins(999, "mars"));
    let res = execute(
        &mut state,
        &mut value,
        &env,
        &info,
        ExecuteMsg::QueryOracleValue {},
    );
    assert!(res.is_ok());
    assert_eq!(0, state.fees_accrued);
}

#[test]
fn query_value_fee_must_be_met() {
    let (mut state, mut value) = init_contract(100);
    let env = mock_env();

    let info = mock_info("anyone", &coins(50, "earth"));
    let res = execute(
        &mut state,
        &mut value,
        &env,
        &info,
        ExecuteMsg::QueryOracleValue {},
    );
    assert!(matches!(res, Err(ContractError::InsufficientFunds)));
    assert_eq!(0, state.fees_accrued);

    let info = mock_info("anyone", &coins(1000, "mars"));
    let res = execute(
        &mut state,
        &mut value,
        &env,
        &info,
        ExecuteMsg::QueryOracleValue {},
    );
    assert!(matches!(res, Err(ContractError::InsufficientFunds)));
    assert_eq!(0, state.fees_accrued);

    let info = mock_info("anyone", &coins(100, "earth"));
    let res = execute(
        &mut state,
        &mut value,
        &env,
        &info,
        ExecuteMsg::QueryOracleValue {},
    );
    assert!(res.is_ok());
    assert_eq!(100, state.fees_accrued);
}

#[test]
fn query_value_accrues_last_qualifying_entry() {
    let (mut state, mut value) = init_contract(100);
    let env = mock_env();

    let funds = vec![
        Coin {
            denom: "earth".to_string(),
            amount: 150,
        },
        Coin {
            denom: "earth".to_string(),
            amount: 200,
        },
        Coin {
            denom: "mars".to_string(),
            amount: 999,
        },
    ];
    let info = mock_info("anyone", &funds);
    let res = execute(
        &mut state,
        &mut value,
        &env,
        &info,
        ExecuteMsg::QueryOracleValue {},
    );
    assert!(res.is_ok());
    assert_eq!(200, state.fees_accrued);
}

#[test]
fn query_value_overflow_fails() {
    let (mut state, mut value) = init_contract(100);
    state.fees_accrued = u128::MAX;
    let env = mock_env();
    let info = mock_info("anyone", &coins(100, "earth"));
    let res = execute(
        &mut state,
        &mut value,
        &env,
        &info,
        ExecuteMsg::QueryOracleValue {},
    );
    assert!(matches!(res, Err(ContractError::ArithmeticOverflow)));
    assert_eq!(u128::MAX, state.fees_accrued);
}

#[test]
fn withdraw_more_than_accrued_fails() {
    let (mut state, mut value) = init_contract(100);
    state.fees_accrued = 100;
    let env = mock_env();
    let info = mock_info("creator", &[]);
    let res = execute(
        &mut state,
        &mut value,
        &env,
        &info,
        ExecuteMsg::WithdrawFees { amount: 200 },
    );
    assert!(matches!(res, Err(ContractError::InsufficientBalance)));
    assert_eq!(100, state.fees_accrued);
}

#[test]
fn set_fee_by_owner() {
    let (mut state, mut value) = init_contract(100);
    let env = mock_env();
    let info = mock_info("creator", &[]);
    let res = execute(
        &mut state,
        &mut value,
        &env,
        &info,
        ExecuteMsg::SetFee { amount: 77 },
    )
    .unwrap();
    assert_eq!(77, state.fee);
    assert_eq!("action", res.attributes[0].key);
    assert_eq!("set_fee", res.attributes[0].value);
    assert_eq!("amount", res.attributes[1].key);
    assert_eq!("77", res.attributes[1].value);
}

#[test]
fn scenario_fee_metering() {
    let (mut state, mut value) = init_contract(100);
    let env = mock_env();

    let info = mock_info("creator", &[]);
    execute(
        &mut state,
        &mut value,
        &env,
        &info,
        ExecuteMsg::UpdateOracleValue {
            value: 100000,
            decimals: 5,
        },
    )
    .unwrap();

    let info = mock_info("anyone", &coins(1000, "earth"));
    let res = execute(
        &mut state,
        &mut value,
        &env,
        &info,
        ExecuteMsg::QueryOracleValue {},
    )
    .unwrap();
    assert_eq!("100000", res.attributes[0].value);
    assert_eq!("5", res.attributes[1].value);
    // The whole qualifying entry is accrued, not just the required fee.
    assert_eq!(1000, state.fees_accrued);
}

#[test]
fn query_answers_read_state() {
    let (mut state, _value) = init_contract(42);
    state.fees_accrued = 9;

    match query(&state, &QueryMsg::Status {}) {
        QueryAnswer::Status(a) => assert_eq!("OK", a.status),
        _ => panic!("wrong answer variant"),
    }
    match query(&state, &QueryMsg::OracleRole {}) {
        QueryAnswer::OracleRole(a) => assert_eq!("creator", a.address),
        _ => panic!("wrong answer variant"),
    }
    match query(&state, &QueryMsg::Fee {}) {
        QueryAnswer::Fee(a) => assert_eq!(42, a.fee),
        _ => panic!("wrong answer variant"),
    }
    match query(&state, &QueryMsg::FeesAccrued {}) {
        QueryAnswer::FeesAccrued(a) => assert_eq!(9, a.fees_accrued),
        _ => panic!("wrong answer variant"),
    }
}
