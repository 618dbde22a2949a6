//! The oracle client contract.
//!
//! Holds the address of an oracle contract.  On request it schedules a
//! sub-call to the oracle's metered query, forwarding whatever funds
//! accompany the call, and registers for a reply on success.  When the host
//! delivers the reply it extracts the reading from the reply's event
//! attributes, parses the three decimal numerals, and overwrites its local
//! cache of the reading.
//!
//! As in the oracle module, ghost transition functions define each entry
//! operation and the executable operations are proved to implement them.

use vstd::prelude::*;

use crate::codec::{dec_val, parses_as_u128, parses_as_u64};
use crate::codec::{parse_u128, parse_u64};
use crate::oracle::OracleValue;
use crate::oracle::query_value_attrs;
use crate::types::{
    Addr, Attribute, AttrV, Coin, CoinV, ContractError, Env, Event, EventV, MessageInfo,
    MessageInfoV, ReplyFault, ReplyField, attrs_view, coins_view, events_view, str_eq,
};

verus! {

/// The id the sub-call to the oracle is tagged with; the host hands it back
/// with the reply so the contract can dispatch on it.
pub const ORACLE_REPLY_ID: u64 = 1;

/// The contract's administrative record.
#[derive(Clone, Debug)]
pub struct State {
    /// The oracle contract this client queries; fixed at instantiation.
    pub oracle_contract_address: Addr,
    /// The creator; stored, not otherwise used yet.
    pub owner: Addr,
}

#[verifier::ext_equal]
pub ghost struct StateV {
    pub oracle_contract_address: Seq<char>,
    pub owner: Seq<char>,
}

impl View for State {
    type V = StateV;

    open spec fn view(&self) -> StateV {
        StateV {
            oracle_contract_address: self.oracle_contract_address@,
            owner: self.owner@,
        }
    }
}

/// Instantiation input: which oracle contract to query.
#[derive(Clone, Debug)]
pub struct InstantiateMsg {
    pub oracle_contract_address: Addr,
}

/// The contract's execute operations.
#[derive(Clone, Copy, Debug, PartialEq, Eq, Structural)]
pub enum ExecuteMsg {
    QueryOracleValue {},
}

/// The cross-contract message sent to the oracle; the address names the
/// requesting contract (informational only for the oracle's handler).
#[derive(Clone, Debug)]
pub enum OracleMsg {
    QueryOracleValue { address: Addr },
}

#[verifier::ext_equal]
pub ghost struct OracleMsgV {
    pub address: Seq<char>,
}

impl View for OracleMsg {
    type V = OracleMsgV;

    open spec fn view(&self) -> OracleMsgV {
        match self {
            OracleMsg::QueryOracleValue { address } => OracleMsgV { address: address@ },
        }
    }
}

/// The contract's read-only queries.
#[derive(Clone, Copy, Debug, PartialEq, Eq, Structural)]
pub enum QueryMsg {
    OracleContract {},
    OracleValue {},
}

pub struct OracleContractResponse {
    pub address: Addr,
}

#[derive(Clone, Copy, Debug, PartialEq, Eq, Structural)]
pub struct OracleValueResponse {
    pub oracle_value: OracleValue,
}

/// The typed answer of a read-only query; the host glue serializes it.
pub enum QueryAnswer {
    OracleContract(OracleContractResponse),
    OracleValue(OracleValueResponse),
}

/// A sub-call scheduled by the contract: an execute message for another
/// contract, the funds to forward, and the reply id.  The host delivers a
/// reply only if the sub-call succeeds.
#[derive(Clone, Debug)]
pub struct SubMsg {
    pub id: u64,
    pub contract_addr: Addr,
    pub msg: OracleMsg,
    pub funds: Vec<Coin>,
}

#[verifier::ext_equal]
pub ghost struct SubMsgV {
    pub id: u64,
    pub contract_addr: Seq<char>,
    pub msg: OracleMsgV,
    pub funds: Seq<CoinV>,
}

impl View for SubMsg {
    type V = SubMsgV;

    open spec fn view(&self) -> SubMsgV {
        SubMsgV {
            id: self.id,
            contract_addr: self.contract_addr@,
            msg: self.msg@,
            funds: coins_view(self.funds@),
        }
    }
}

/// What an entry operation hands back to the host: sub-calls to dispatch
/// and attributes to attach to the transaction's result.
#[derive(Clone, Debug)]
pub struct Response {
    pub messages: Vec<SubMsg>,
    pub attributes: Vec<Attribute>,
}

#[verifier::ext_equal]
pub ghost struct ResponseV {
    pub messages: Seq<SubMsgV>,
    pub attributes: Seq<AttrV>,
}

/// The views of a sequence of sub-calls.
pub open spec fn sub_msgs_view(ms: Seq<SubMsg>) -> Seq<SubMsgV> {
    ms.map_values(|m: SubMsg| m@)
}

impl View for Response {
    type V = ResponseV;

    open spec fn view(&self) -> ResponseV {
        ResponseV {
            messages: sub_msgs_view(self.messages@),
            attributes: attrs_view(self.attributes@),
        }
    }
}

/// What a completed sub-call delivered back: the events it emitted.
#[derive(Clone, Debug)]
pub struct SubMsgResponse {
    pub events: Vec<Event>,
}

/// A sub-call's outcome as the host reports it.
#[derive(Clone, Debug)]
pub enum SubMsgResult {
    Success(SubMsgResponse),
    Failure(String),
}

/// The reply callback's payload: the id the sub-call was tagged with and
/// its outcome.
#[derive(Clone, Debug)]
pub struct Reply {
    pub id: u64,
    pub result: SubMsgResult,
}

// ------------------------------------------------------------------
// Ghost transition functions.
// ------------------------------------------------------------------

/// A response with no messages and no attributes.
pub open spec fn empty_response() -> ResponseV {
    ResponseV { messages: seq![], attributes: seq![] }
}

/// Instantiation: stores the oracle address and the caller, and zeroes the
/// cached reading.  Never fails.
pub open spec fn spec_instantiate(info: MessageInfoV, oracle_contract_address: Seq<char>) -> (
    StateV,
    OracleValue,
    ResponseV,
) {
    (
        StateV { oracle_contract_address, owner: info.sender },
        OracleValue { value: 0, decimals: 0, timestamp: 0 },
        empty_response(),
    )
}

/// The request: schedules one sub-call to the configured oracle's metered
/// query, forwarding the attached funds, tagged with [`ORACLE_REPLY_ID`].
/// No value is available yet when this returns.
pub open spec fn spec_query_oracle_value(
    s: StateV,
    contract_address: Seq<char>,
    funds: Seq<CoinV>,
) -> ResponseV {
    ResponseV {
        messages: seq![
            SubMsgV {
                id: ORACLE_REPLY_ID,
                contract_addr: s.oracle_contract_address,
                msg: OracleMsgV { address: contract_address },
                funds,
            },
        ],
        attributes: seq![AttrV { key: "action"@, value: "query_oracle_value"@ }],
    }
}

/// An attribute with the given key stands somewhere in the event.
pub open spec fn event_has_attr(e: EventV, key: Seq<char>) -> bool {
    exists|i: int| 0 <= i < e.attributes.len() && #[trigger] e.attributes[i].key == key
}

/// The first event that carries an attribute with the given key.
pub open spec fn first_event_with(events: Seq<EventV>, key: Seq<char>) -> Option<EventV>
    decreases events.len(),
{
    if events.len() == 0 {
        None
    } else if event_has_attr(events[0], key) {
        Some(events[0])
    } else {
        first_event_with(events.drop_first(), key)
    }
}

/// The value of the first attribute with the given key.
pub open spec fn first_attr_value(attrs: Seq<AttrV>, key: Seq<char>) -> Option<Seq<char>>
    decreases attrs.len(),
{
    if attrs.len() == 0 {
        None
    } else if attrs[0].key == key {
        Some(attrs[0].value)
    } else {
        first_attr_value(attrs.drop_first(), key)
    }
}

/// The cache update a successful sub-call reply causes.  The reading is
/// taken from the first event that carries the value attribute: all three
/// attributes must stand in that same event and parse as decimal numerals
/// of their width, else the reply is refused and the cache kept.
pub open spec fn spec_handle_events(cache: OracleValue, events: Seq<EventV>) -> (
    OracleValue,
    Result<ResponseV, ContractError>,
) {
    match first_event_with(events, "oracle-value"@) {
        None => (cache, Err(ContractError::ProtocolViolation(ReplyFault::MissingEvent))),
        Some(e) => match first_attr_value(e.attributes, "oracle-value"@) {
            None => (
                cache,
                Err(ContractError::ProtocolViolation(ReplyFault::MissingAttribute(
                    ReplyField::Value,
                ))),
            ),
            Some(vs) => match first_attr_value(e.attributes, "decimals"@) {
                None => (
                    cache,
                    Err(ContractError::ProtocolViolation(ReplyFault::MissingAttribute(
                        ReplyField::Decimals,
                    ))),
                ),
                Some(ds) => match first_attr_value(e.attributes, "timestamp"@) {
                    None => (
                        cache,
                        Err(ContractError::ProtocolViolation(ReplyFault::MissingAttribute(
                            ReplyField::Timestamp,
                        ))),
                    ),
                    Some(ts) => if !parses_as_u128(vs) {
                        (cache, Err(ContractError::ParseError(ReplyField::Value)))
                    } else if !parses_as_u128(ds) {
                        (cache, Err(ContractError::ParseError(ReplyField::Decimals)))
                    } else if !parses_as_u64(ts) {
                        (cache, Err(ContractError::ParseError(ReplyField::Timestamp)))
                    } else {
                        (
                            OracleValue {
                                value: dec_val(vs) as u128,
                                decimals: dec_val(ds) as u128,
                                timestamp: dec_val(ts) as u64,
                            },
                            Ok(empty_response()),
                        )
                    },
                },
            },
        },
    }
}

/// The reply handler for the oracle sub-call: a failure outcome is refused
/// (a reply was requested on success only), a success is handled by
/// [`spec_handle_events`].
pub open spec fn spec_handle_reply(cache: OracleValue, result: SubMsgResult) -> (
    OracleValue,
    Result<ResponseV, ContractError>,
) {
    match result {
        SubMsgResult::Failure(_) => (
            cache,
            Err(ContractError::ProtocolViolation(ReplyFault::ErrorResult)),
        ),
        SubMsgResult::Success(r) => spec_handle_events(cache, events_view(r.events@)),
    }
}

/// The reply dispatch: unknown ids are refused, the known id is handled.
pub open spec fn spec_reply(cache: OracleValue, reply: Reply) -> (
    OracleValue,
    Result<ResponseV, ContractError>,
) {
    if reply.id != ORACLE_REPLY_ID {
        (cache, Err(ContractError::UnknownReplyId(reply.id)))
    } else {
        spec_handle_reply(cache, reply.result)
    }
}

/// Maps an executable operation result to its ghost counterpart.
pub open spec fn res_view(r: Result<Response, ContractError>) -> Result<ResponseV, ContractError> {
    match r {
        Ok(resp) => Ok(resp@),
        Err(e) => Err(e),
    }
}

// ------------------------------------------------------------------
// Executable entry operations.
// ------------------------------------------------------------------

/// Copies a funds list field by field.
fn clone_coins(cs: &Vec<Coin>) -> (r: Vec<Coin>)
    ensures
        r@ == cs@,
{
    let mut r: Vec<Coin> = Vec::new();
    let mut i: usize = 0;
    while i < cs.len()
        invariant
            0 <= i <= cs@.len(),
            r@ == cs@.take(i as int),
        decreases cs@.len() - i,
    {
        r.push(Coin { denom: cs[i].denom.clone(), amount: cs[i].amount });
        proof {
            assert(cs@.take(i as int + 1).drop_last() =~= cs@.take(i as int));
            assert(r@ =~= cs@.take(i as int + 1));
        }
        i = i + 1;
    }
    proof {
        assert(cs@.take(cs@.len() as int) =~= cs@);
    }
    r
}

/// Instantiates the contract; never fails.
pub fn instantiate(info: &MessageInfo, msg: InstantiateMsg) -> (r: (State, OracleValue, Response))
    ensures
        ({
            let (s, v, resp) = spec_instantiate(info@, msg.oracle_contract_address@);
            r.0@ == s && r.1 == v && r.2@ == resp
        }),
{
    let state = State {
        oracle_contract_address: msg.oracle_contract_address,
        owner: info.sender.clone(),
    };
    let value = OracleValue { value: 0, decimals: 0, timestamp: 0 };
    let resp = Response { messages: Vec::new(), attributes: Vec::new() };
    proof {
        assert(resp@ =~= empty_response());
    }
    (state, value, resp)
}

/// Schedules the sub-call that asks the oracle for its reading.
pub fn try_query_oracle_value(state: &State, env: &Env, info: &MessageInfo) -> (r: Response)
    ensures
        r@ == spec_query_oracle_value(state@, env.contract_address@, info@.funds),
{
    let sub_msg = SubMsg {
        id: ORACLE_REPLY_ID,
        contract_addr: state.oracle_contract_address.clone(),
        msg: OracleMsg::QueryOracleValue { address: env.contract_address.clone() },
        funds: clone_coins(&info.funds),
    };
    let mut messages: Vec<SubMsg> = Vec::new();
    messages.push(sub_msg);
    let mut attributes: Vec<Attribute> = Vec::new();
    attributes.push(
        Attribute { key: "action".to_owned(), value: "query_oracle_value".to_owned() },
    );
    let r = Response { messages, attributes };
    proof {
        assert(r@ =~= spec_query_oracle_value(state@, env.contract_address@, info@.funds));
    }
    r
}

/// Dispatches an execute message to its handler.
pub fn execute(state: &State, env: &Env, info: &MessageInfo, msg: ExecuteMsg) -> (r: Response)
    ensures
        msg is QueryOracleValue ==> r@ == spec_query_oracle_value(
            state@,
            env.contract_address@,
            info@.funds,
        ),
{
    match msg {
        ExecuteMsg::QueryOracleValue {  } => try_query_oracle_value(state, env, info),
    }
}

/// Answers a read-only query; no side effect.
pub fn query(state: &State, value: &OracleValue, msg: &QueryMsg) -> (r: QueryAnswer)
    ensures
        msg is OracleContract ==> (r matches QueryAnswer::OracleContract(a) && a.address@
            == state.oracle_contract_address@),
        msg is OracleValue ==> (r matches QueryAnswer::OracleValue(a) && a.oracle_value == *value),
{
    match msg {
        QueryMsg::OracleContract {  } => QueryAnswer::OracleContract(
            OracleContractResponse { address: state.oracle_contract_address.clone() },
        ),
        QueryMsg::OracleValue {  } => QueryAnswer::OracleValue(
            OracleValueResponse { oracle_value: *value },
        ),
    }
}

/// Turns a reply's outcome into the sub-call's response, refusing the
/// failure variant.
pub fn unwrap_reply(reply: Reply) -> (r: Result<SubMsgResponse, ContractError>)
    ensures
        ({
            match reply.result {
                SubMsgResult::Success(resp) => r == Ok::<SubMsgResponse, ContractError>(resp),
                SubMsgResult::Failure(_) => r == Err::<SubMsgResponse, ContractError>(
                    ContractError::ProtocolViolation(ReplyFault::ErrorResult),
                ),
            }
        }),
{
    match reply.result {
        SubMsgResult::Success(resp) => Ok(resp),
        SubMsgResult::Failure(_) => Err(ContractError::ProtocolViolation(ReplyFault::ErrorResult)),
    }
}

/// Whether the event carries an attribute with the given key.
pub fn event_contains_attr(event: &Event, key: &str) -> (b: bool)
    ensures
        b == event_has_attr(event@, key@),
{
    let mut i: usize = 0;
    while i < event.attributes.len()
        invariant
            0 <= i <= event.attributes@.len(),
            forall|k: int| 0 <= k < i ==> #[trigger] event@.attributes[k].key != key@,
        decreases event.attributes@.len() - i,
    {
        if str_eq(event.attributes[i].key.as_str(), key) {
            proof {
                assert(event@.attributes[i as int].key == key@);
            }
            return true;
        }
        proof {
            assert(event@.attributes[i as int] == event.attributes@[i as int]@);
        }
        i = i + 1;
    }
    proof {
        assert(forall|k: int| 0 <= k < event@.attributes.len()
            ==> #[trigger] event@.attributes[k].key != key@);
    }
    false
}

/// Skipping events that lack the key does not change which event is found.
proof fn lemma_first_event_with_prefix(events: Seq<EventV>, key: Seq<char>, i: int)
    requires
        0 <= i <= events.len(),
        forall|k: int| 0 <= k < i ==> !event_has_attr(#[trigger] events[k], key),
    ensures
        first_event_with(events, key) == first_event_with(events.skip(i), key),
    decreases i,
{
    if i == 0 {
        assert(events.skip(0) =~= events);
    } else {
        lemma_first_event_with_prefix(events, key, i - 1);
        assert(events.skip(i - 1).len() > 0);
        assert(events.skip(i - 1)[0] == events[i - 1]);
        assert(events.skip(i - 1).drop_first() =~= events.skip(i));
    }
}

/// Skipping attributes whose key differs does not change the value found.
proof fn lemma_first_attr_value_prefix(attrs: Seq<AttrV>, key: Seq<char>, i: int)
    requires
        0 <= i <= attrs.len(),
        forall|k: int| 0 <= k < i ==> #[trigger] attrs[k].key != key,
    ensures
        first_attr_value(attrs, key) == first_attr_value(attrs.skip(i), key),
    decreases i,
{
    if i == 0 {
        assert(attrs.skip(0) =~= attrs);
    } else {
        lemma_first_attr_value_prefix(attrs, key, i - 1);
        assert(attrs.skip(i - 1).len() > 0);
        assert(attrs.skip(i - 1)[0] == attrs[i - 1]);
        assert(attrs.skip(i - 1).drop_first() =~= attrs.skip(i));
    }
}

/// Finds the first event that carries the value attribute.
fn find_value_event(events: &Vec<Event>) -> (r: Option<usize>)
    ensures
        ({
            let ev = events_view(events@);
            match r {
                Some(i) => i < ev.len() && first_event_with(ev, "oracle-value"@) == Some(
                    ev[i as int],
                ),
                None => first_event_with(ev, "oracle-value"@) is None,
            }
        }),
{
    let ghost ev = events_view(events@);
    let mut i: usize = 0;
    while i < events.len()
        invariant
            0 <= i <= ev.len(),
            ev == events_view(events@),
            ev.len() == events@.len(),
            forall|k: int| 0 <= k < i ==> !event_has_attr(#[trigger] ev[k], "oracle-value"@),
        decreases ev.len() - i,
    {
        proof {
            assert(ev[i as int] == events@[i as int]@);
        }
        if event_contains_attr(&events[i], "oracle-value") {
            proof {
                lemma_first_event_with_prefix(ev, "oracle-value"@, i as int);
                assert(ev.skip(i as int)[0] == ev[i as int]);
            }
            return Some(i);
        }
        i = i + 1;
    }
    proof {
        lemma_first_event_with_prefix(ev, "oracle-value"@, ev.len() as int);
    }
    None
}

/// Finds the value of the first attribute with the given key.
fn find_attr_value(event: &Event, key: &str) -> (r: Option<String>)
    ensures
        ({
            match r {
                Some(v) => first_attr_value(event@.attributes, key@) == Some(v@),
                None => first_attr_value(event@.attributes, key@) is None,
            }
        }),
{
    let ghost attrs = event@.attributes;
    let mut i: usize = 0;
    while i < event.attributes.len()
        invariant
            0 <= i <= attrs.len(),
            attrs == event@.attributes,
            attrs.len() == event.attributes@.len(),
            forall|k: int| 0 <= k < i ==> #[trigger] attrs[k].key != key@,
        decreases attrs.len() - i,
    {
        proof {
            assert(attrs[i as int] == event.attributes@[i as int]@);
        }
        if str_eq(event.attributes[i].key.as_str(), key) {
            proof {
                lemma_first_attr_value_prefix(attrs, key@, i as int);
                assert(attrs.skip(i as int)[0] == attrs[i as int]);
            }
            return Some(event.attributes[i].value.clone());
        }
        i = i + 1;
    }
    proof {
        lemma_first_attr_value_prefix(attrs, key@, attrs.len() as int);
    }
    None
}

/// Handles the oracle sub-call's reply: extracts the reading from the reply
/// events and overwrites the cache; any fault refuses the reply and keeps
/// the cache.
pub fn handle_oracle_reply(value: &mut OracleValue, msg: Reply) -> (r: Result<
    Response,
    ContractError,
>)
    ensures
        ({
            let (c2, rr) = spec_handle_reply(*old(value), msg.result);
            *final(value) == c2 && res_view(r) == rr
        }),
{
    let sub_response = match unwrap_reply(msg) {
        Ok(resp) => resp,
        Err(e) => {
            return Err(e);
        },
    };
    let ei = match find_value_event(&sub_response.events) {
        Some(i) => i,
        None => {
            return Err(ContractError::ProtocolViolation(ReplyFault::MissingEvent));
        },
    };
    let event = &sub_response.events[ei];
    proof {
        assert(event@ == events_view(sub_response.events@)[ei as int]);
    }
    let value_str = match find_attr_value(event, "oracle-value") {
        Some(v) => v,
        None => {
            return Err(ContractError::ProtocolViolation(ReplyFault::MissingAttribute(
                ReplyField::Value,
            )));
        },
    };
    let decimals_str = match find_attr_value(event, "decimals") {
        Some(v) => v,
        None => {
            return Err(ContractError::ProtocolViolation(ReplyFault::MissingAttribute(
                ReplyField::Decimals,
            )));
        },
    };
    let timestamp_str = match find_attr_value(event, "timestamp") {
        Some(v) => v,
        None => {
            return Err(ContractError::ProtocolViolation(ReplyFault::MissingAttribute(
                ReplyField::Timestamp,
            )));
        },
    };
    let new_value = match parse_u128(value_str.as_str()) {
        Some(v) => v,
        None => {
            return Err(ContractError::ParseError(ReplyField::Value));
        },
    };
    let new_decimals = match parse_u128(decimals_str.as_str()) {
        Some(v) => v,
        None => {
            return Err(ContractError::ParseError(ReplyField::Decimals));
        },
    };
    let new_timestamp = match parse_u64(timestamp_str.as_str()) {
        Some(v) => v,
        None => {
            return Err(ContractError::ParseError(ReplyField::Timestamp));
        },
    };
    value.value = new_value;
    value.decimals = new_decimals;
    value.timestamp = new_timestamp;
    let resp = Response { messages: Vec::new(), attributes: Vec::new() };
    proof {
        assert(resp@ =~= empty_response());
    }
    Ok(resp)
}

/// Dispatches a reply on its id; unknown ids are refused.
pub fn reply(value: &mut OracleValue, msg: Reply) -> (r: Result<Response, ContractError>)
    ensures
        ({
            let (c2, rr) = spec_reply(*old(value), msg);
            *final(value) == c2 && res_view(r) == rr
        }),
{
    if msg.id != ORACLE_REPLY_ID {
        let id = msg.id;
        return Err(ContractError::UnknownReplyId(id));
    }
    handle_oracle_reply(value, msg)
}

// ------------------------------------------------------------------
// Laws.
// ------------------------------------------------------------------

/// Law: a reading the oracle reports through a successful metered query,
/// delivered back as an event carrying exactly those attributes, is cached
/// by the client without change: the whole round trip through the decimal
/// wire format is lossless.
pub proof fn lemma_reply_caches_reported_reading(cache: OracleValue, ov: OracleValue)
    ensures
        spec_handle_events(cache, seq![(EventV { attributes: query_value_attrs(ov) })]) == (
            ov,
            Ok::<ResponseV, ContractError>(empty_response()),
        ),
{
    reveal_strlit("oracle-value");
    reveal_strlit("decimals");
    reveal_strlit("timestamp");
    crate::codec::lemma_dec_round_trip(ov.value as nat);
    crate::codec::lemma_dec_round_trip(ov.decimals as nat);
    crate::codec::lemma_dec_round_trip(ov.timestamp as nat);
    let attrs = query_value_attrs(ov);
    let events = seq![(EventV { attributes: attrs })];
    assert(attrs[0].key == "oracle-value"@);
    assert(events[0] == (EventV { attributes: attrs }));
    assert(events[0].attributes[0].key == "oracle-value"@);
    assert(event_has_attr(events[0], "oracle-value"@));
    assert(first_event_with(events, "oracle-value"@) == Some(events[0]));
    assert(first_attr_value(attrs, "oracle-value"@) == Some(attrs[0].value));
    let a1 = attrs.drop_first();
    assert(a1[0] == attrs[1]);
    assert(a1.len() == 2);
    assert("oracle-value"@.len() == 12);
    assert("decimals"@.len() == 8);
    assert("timestamp"@.len() == 9);
    assert("decimals"@ != "oracle-value"@);
    assert("timestamp"@ != "oracle-value"@);
    assert("timestamp"@ != "decimals"@);
    assert(first_attr_value(attrs, "decimals"@) == first_attr_value(a1, "decimals"@));
    assert(first_attr_value(a1, "decimals"@) == Some(attrs[1].value));
    let a2 = a1.drop_first();
    assert(a2[0] == attrs[2]);
    assert(first_attr_value(attrs, "timestamp"@) == first_attr_value(a1, "timestamp"@));
    assert(first_attr_value(a1, "timestamp"@) == first_attr_value(a2, "timestamp"@));
    assert(first_attr_value(a2, "timestamp"@) == Some(attrs[2].value));
}

/// Law: end to end across the two contracts — when the oracle's metered
/// query succeeds on its current reading and the host hands the client's
/// reply handler an event carrying the response's attributes, the client's
/// cache afterwards equals the oracle's reading exactly.
pub proof fn lemma_end_to_end_cache_equals_reading(
    s: crate::oracle::StateV,
    ov: OracleValue,
    funds: Seq<CoinV>,
    cache: OracleValue,
)
    ensures
        ({
            let (s2, r) = crate::oracle::spec_query_value(s, ov, funds);
            r matches Ok(resp) ==> spec_handle_events(
                cache,
                seq![(EventV { attributes: resp.attributes })],
            ) == (ov, Ok::<ResponseV, ContractError>(empty_response()))
        }),
{
    let (s2, r) = crate::oracle::spec_query_value(s, ov, funds);
    if r is Ok {
        assert(r->Ok_0.attributes == query_value_attrs(ov));
        lemma_reply_caches_reported_reading(cache, ov);
    }
}

/// Law: a successful reply none of whose events carries the value attribute
/// is refused with the missing-event fault and leaves the cached reading
/// unchanged.
pub proof fn lemma_missing_event_keeps_cache(cache: OracleValue, events: Seq<EventV>)
    requires
        forall|k: int| 0 <= k < events.len() ==> !event_has_attr(#[trigger] events[k],
            "oracle-value"@),
    ensures
        spec_handle_events(cache, events) == (
            cache,
            Err::<ResponseV, ContractError>(
                ContractError::ProtocolViolation(ReplyFault::MissingEvent),
            ),
        ),
{
    lemma_first_event_with_prefix(events, "oracle-value"@, events.len() as int);
}

} // verus!
