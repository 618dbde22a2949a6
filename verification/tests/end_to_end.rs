//! A full round trip through both contracts' executable operations: the
//! oracle reports its reading through a metered query, and the client's
//! reply handler caches exactly that reading.

use oracle_contracts::oracle;
use oracle_contracts::oracle_client;
use oracle_contracts::types::{Coin, Env, Event, MessageInfo};

fn coins(amount: u128, denom: &str) -> Vec<Coin> {
    vec![Coin {
        denom: denom.to_string(),
        amount,
    }]
}

fn env_at(block_time: u64, contract_address: &str) -> Env {
    Env {
        block_time,
        contract_address: contract_address.to_string(),
    }
}

fn info(sender: &str, funds: &[Coin]) -> MessageInfo {
    MessageInfo {
        sender: sender.to_string(),
        funds: funds.to_vec(),
    }
}

#[test]
fn cache_equals_oracle_reading_after_round_trip() {
    // The oracle, instantiated free of charge.
    let (mut o_state, mut o_value, _) = oracle::instantiate(
        &info("creator", &coins(1000, "earth")),
        &oracle::InstantiateMsg { fee: 0 },
    )
    .unwrap();
    oracle::execute(
        &mut o_state,
        &mut o_value,
        &env_at(1700000000, "oracle_contract"),
        &info("creator", &[]),
        oracle::ExecuteMsg::UpdateOracleValue {
            value: 424242,
            decimals: 6,
        },
    )
    .unwrap();

    // The client, pointed at the oracle.
    let (c_state, mut c_value, _) = oracle_client::instantiate(
        &info("creator", &coins(1000, "earth")),
        oracle_client::InstantiateMsg {
            oracle_contract_address: "oracle_contract".to_string(),
        },
    );

    // The client schedules the sub-call; the host would dispatch it.
    let request = oracle_client::execute(
        &c_state,
        &env_at(1700000100, "client_contract"),
        &info("caller", &[]),
        oracle_client::ExecuteMsg::QueryOracleValue {},
    );
    let sub = &request.messages[0];
    assert_eq!("oracle_contract", sub.contract_addr);

    // The oracle executes the metered query the sub-call carries.
    let oracle_response = oracle::execute(
        &mut o_state,
        &mut o_value,
        &env_at(1700000100, "oracle_contract"),
        &info("client_contract", &[]),
        oracle::ExecuteMsg::QueryOracleValue {},
    )
    .unwrap();

    // The host delivers the emitted attributes back as a reply event.
    let reply = oracle_client::Reply {
        id: sub.id,
        result: oracle_client::SubMsgResult::Success(oracle_client::SubMsgResponse {
            events: vec![Event {
                attributes: oracle_response.attributes,
            }],
        }),
    };
    oracle_client::reply(&mut c_value, reply).unwrap();

    // The client's cache now equals the oracle's reading exactly.
    assert_eq!(o_value, c_value);
    assert_eq!(424242, c_value.value);
    assert_eq!(6, c_value.decimals);
    assert_eq!(1700000000, c_value.timestamp);
}
