//! The oracle contract.
//!
//! Owns the canonical reading.  It enforces owner permissions on the
//! administrative operations, meters access to the reading with a per-call
//! fee in a denomination fixed at instantiation, accrues the collected fees,
//! and lets the owner withdraw them as an outbound payout transfer.
//!
//! Each entry operation is a pure transition: the ghost functions
//! (`spec_instantiate`, `spec_execute`, ...) define what it does to the
//! state, and each executable operation is proved to implement its ghost
//! counterpart exactly.  The host glue around the contract only loads the
//! records, calls the operation, and saves what comes back.

use vstd::prelude::*;

use crate::codec::dec_of;
use crate::codec::u128_to_dec;
use crate::types::{
    Addr, Attribute, AttrV, Coin, CoinV, ContractError, Env, MessageInfo, MessageInfoV, coins_view,
    attrs_view,
};

verus! {

/// The stored reading: a value, its decimal shift, and the block time (in
/// seconds) at which it was last set.  The three fields are always replaced
/// together, never partially.
#[derive(Clone, Copy, Debug, PartialEq, Eq, Structural)]
pub struct OracleValue {
    pub value: u128,
    pub decimals: u128,
    pub timestamp: u64,
}

/// The contract's administrative record.
#[derive(Clone, Debug)]
pub struct State {
    /// The address granted the oracle role.
    pub oracle: Addr,
    /// The address allowed to administer the contract.
    pub owner: Addr,
    /// The fee a metered query must pay.
    pub fee: u128,
    /// Everything collected through metered queries and not yet withdrawn.
    pub fees_accrued: u128,
    /// The denomination fees are paid in; fixed at instantiation.
    pub denom: String,
}

#[verifier::ext_equal]
pub ghost struct StateV {
    pub oracle: Seq<char>,
    pub owner: Seq<char>,
    pub fee: u128,
    pub fees_accrued: u128,
    pub denom: Seq<char>,
}

impl View for State {
    type V = StateV;

    open spec fn view(&self) -> StateV {
        StateV {
            oracle: self.oracle@,
            owner: self.owner@,
            fee: self.fee,
            fees_accrued: self.fees_accrued,
            denom: self.denom@,
        }
    }
}

/// An outbound payout transfer of a single amount.
#[derive(Clone, Debug)]
pub struct BankSend {
    pub to_address: Addr,
    pub amount: u128,
    pub denom: String,
}

#[verifier::ext_equal]
pub ghost struct BankSendV {
    pub to_address: Seq<char>,
    pub amount: u128,
    pub denom: Seq<char>,
}

impl View for BankSend {
    type V = BankSendV;

    open spec fn view(&self) -> BankSendV {
        BankSendV { to_address: self.to_address@, amount: self.amount, denom: self.denom@ }
    }
}

/// The views of a sequence of payout transfers.
pub open spec fn bank_sends_view(ms: Seq<BankSend>) -> Seq<BankSendV> {
    ms.map_values(|m: BankSend| m@)
}

/// What an entry operation hands back to the host: outbound messages to
/// dispatch and attributes to attach to the transaction's result.
#[derive(Clone, Debug)]
pub struct Response {
    pub messages: Vec<BankSend>,
    pub attributes: Vec<Attribute>,
}

#[verifier::ext_equal]
pub ghost struct ResponseV {
    pub messages: Seq<BankSendV>,
    pub attributes: Seq<AttrV>,
}

impl View for Response {
    type V = ResponseV;

    open spec fn view(&self) -> ResponseV {
        ResponseV {
            messages: bank_sends_view(self.messages@),
            attributes: attrs_view(self.attributes@),
        }
    }
}

/// Instantiation input: the fee a metered query must pay.
#[derive(Clone, Copy, Debug, PartialEq, Eq, Structural)]
pub struct InstantiateMsg {
    pub fee: u128,
}

/// The contract's execute operations.
#[derive(Clone, Debug)]
pub enum ExecuteMsg {
    GrantOracleRole { address: Addr },
    UpdateOracleValue { value: u128, decimals: u128 },
    QueryOracleValue {},
    SetFee { amount: u128 },
    WithdrawFees { amount: u128 },
}

/// A message a consuming contract could accept to be pushed the reading.
#[derive(Clone, Copy, Debug, PartialEq, Eq, Structural)]
pub enum ConsumerMsg {
    SetOracleValue { value: OracleValue },
}

/// The contract's read-only queries.
#[derive(Clone, Copy, Debug, PartialEq, Eq, Structural)]
pub enum QueryMsg {
    Status {},
    OracleRole {},
    Fee {},
    FeesAccrued {},
}

pub struct StatusResponse {
    pub status: String,
}

pub struct OracleRoleResponse {
    pub address: Addr,
}

#[derive(Clone, Copy, Debug, PartialEq, Eq, Structural)]
pub struct FeeResponse {
    pub fee: u128,
}

#[derive(Clone, Copy, Debug, PartialEq, Eq, Structural)]
pub struct FeesAccruedResponse {
    pub fees_accrued: u128,
}

/// The typed answer of a read-only query; the host glue serializes it.
pub enum QueryAnswer {
    Status(StatusResponse),
    OracleRole(OracleRoleResponse),
    Fee(FeeResponse),
    FeesAccrued(FeesAccruedResponse),
}

// ------------------------------------------------------------------
// Ghost transition functions: what each operation does.
// ------------------------------------------------------------------

/// A response with no messages and no attributes.
pub open spec fn empty_response() -> ResponseV {
    ResponseV { messages: seq![], attributes: seq![] }
}

/// A response that only names the action performed.
pub open spec fn action_response(name: Seq<char>) -> ResponseV {
    ResponseV { messages: seq![], attributes: seq![AttrV { key: "action"@, value: name }] }
}

/// Instantiation: refuses a call without funds (no denomination could be
/// determined), otherwise fixes the denomination to the first funds entry's,
/// makes the caller both owner and oracle, and zeroes the reading.
pub open spec fn spec_instantiate(info: MessageInfoV, fee: u128) -> Result<
    (StateV, OracleValue, ResponseV),
    ContractError,
> {
    if info.funds.len() == 0 {
        Err(ContractError::ConfigurationError)
    } else {
        Ok(
            (
                StateV {
                    oracle: info.sender,
                    owner: info.sender,
                    fee,
                    fees_accrued: 0,
                    denom: info.funds[0].denom,
                },
                OracleValue { value: 0, decimals: 0, timestamp: 0 },
                empty_response(),
            ),
        )
    }
}

/// Granting the oracle role: owner only.
pub open spec fn spec_grant_role(s: StateV, sender: Seq<char>, address: Seq<char>) -> (
    StateV,
    Result<ResponseV, ContractError>,
) {
    if sender != s.owner {
        (s, Err(ContractError::Unauthorized))
    } else {
        (StateV { oracle: address, ..s }, Ok(action_response("grant_oracle_role"@)))
    }
}

/// Updating the reading: replaces all three fields, stamping the block time.
pub open spec fn spec_update_value(ov: OracleValue, value: u128, decimals: u128, block_time: u64) -> (
    OracleValue,
    ResponseV,
) {
    (
        OracleValue { value, decimals, timestamp: block_time },
        action_response("update_oracle_value"@),
    )
}

/// The amount of the last funds entry that pays at least `fee` in `denom`,
/// if any entry does.
pub open spec fn last_qualifying(funds: Seq<CoinV>, denom: Seq<char>, fee: u128) -> Option<u128>
    decreases funds.len(),
{
    if funds.len() == 0 {
        None
    } else if funds.last().denom == denom && funds.last().amount >= fee {
        Some(funds.last().amount)
    } else {
        last_qualifying(funds.drop_last(), denom, fee)
    }
}

/// The attributes a successful metered query reports: the reading's three
/// fields as decimal numerals under fixed keys.  This is the wire format the
/// client contract parses.
pub open spec fn query_value_attrs(ov: OracleValue) -> Seq<AttrV> {
    seq![
        AttrV { key: "oracle-value"@, value: dec_of(ov.value as nat) },
        AttrV { key: "decimals"@, value: dec_of(ov.decimals as nat) },
        AttrV { key: "timestamp"@, value: dec_of(ov.timestamp as nat) },
    ]
}

/// The metered query: free when the fee is zero; otherwise some attached
/// entry must pay at least the fee in the contract's denomination, and the
/// qualifying entry's amount — the last such entry iterated — is added to
/// the accrued fees.  Reports the current reading as attributes.
pub open spec fn spec_query_value(s: StateV, ov: OracleValue, funds: Seq<CoinV>) -> (
    StateV,
    Result<ResponseV, ContractError>,
) {
    let sent_opt = if s.fee == 0 {
        Some(0u128)
    } else {
        last_qualifying(funds, s.denom, s.fee)
    };
    match sent_opt {
        None => (s, Err(ContractError::InsufficientFunds)),
        Some(sent) => if s.fees_accrued + sent > u128::MAX {
            (s, Err(ContractError::ArithmeticOverflow))
        } else {
            (
                StateV { fees_accrued: (s.fees_accrued + sent) as u128, ..s },
                Ok(ResponseV { messages: seq![], attributes: query_value_attrs(ov) }),
            )
        },
    }
}

/// Replacing the fee: owner only.
pub open spec fn spec_set_fee(s: StateV, sender: Seq<char>, amount: u128) -> (
    StateV,
    Result<ResponseV, ContractError>,
) {
    if sender != s.owner {
        (s, Err(ContractError::Unauthorized))
    } else {
        (
            StateV { fee: amount, ..s },
            Ok(
                ResponseV {
                    messages: seq![],
                    attributes: seq![
                        AttrV { key: "action"@, value: "set_fee"@ },
                        AttrV { key: "amount"@, value: dec_of(amount as nat) },
                    ],
                },
            ),
        )
    }
}

/// Withdrawing accrued fees: owner only, never more than what was accrued,
/// and pays the amount out to the owner in the contract's denomination.
pub open spec fn spec_withdraw_fees(s: StateV, sender: Seq<char>, amount: u128) -> (
    StateV,
    Result<ResponseV, ContractError>,
) {
    if sender != s.owner {
        (s, Err(ContractError::Unauthorized))
    } else if amount > s.fees_accrued {
        (s, Err(ContractError::InsufficientBalance))
    } else {
        (
            StateV { fees_accrued: (s.fees_accrued - amount) as u128, ..s },
            Ok(
                ResponseV {
                    messages: seq![BankSendV { to_address: s.owner, amount, denom: s.denom }],
                    attributes: seq![
                        AttrV { key: "action"@, value: "withdraw_fees"@ },
                        AttrV { key: "amount"@, value: dec_of(amount as nat) },
                    ],
                },
            ),
        )
    }
}

/// The execute dispatch over both records.
pub open spec fn spec_execute(
    s: StateV,
    ov: OracleValue,
    block_time: u64,
    info: MessageInfoV,
    msg: ExecuteMsg,
) -> (StateV, OracleValue, Result<ResponseV, ContractError>) {
    match msg {
        ExecuteMsg::GrantOracleRole { address } => {
            let (s2, r) = spec_grant_role(s, info.sender, address@);
            (s2, ov, r)
        },
        ExecuteMsg::UpdateOracleValue { value, decimals } => {
            let (ov2, resp) = spec_update_value(ov, value, decimals, block_time);
            (s, ov2, Ok(resp))
        },
        ExecuteMsg::QueryOracleValue {  } => {
            let (s2, r) = spec_query_value(s, ov, info.funds);
            (s2, ov, r)
        },
        ExecuteMsg::SetFee { amount } => {
            let (s2, r) = spec_set_fee(s, info.sender, amount);
            (s2, ov, r)
        },
        ExecuteMsg::WithdrawFees { amount } => {
            let (s2, r) = spec_withdraw_fees(s, info.sender, amount);
            (s2, ov, r)
        },
    }
}

/// Maps an executable operation result to its ghost counterpart.
pub open spec fn res_view(r: Result<Response, ContractError>) -> Result<ResponseV, ContractError> {
    match r {
        Ok(resp) => Ok(resp@),
        Err(e) => Err(e),
    }
}

// ------------------------------------------------------------------
// Executable entry operations.
// ------------------------------------------------------------------

/// Builds an attribute from two string slices.
fn attr(key: &str, value: &str) -> (a: Attribute)
    ensures
        a@.key == key@,
        a@.value == value@,
{
    Attribute { key: key.to_owned(), value: value.to_owned() }
}

/// A response that only names the action performed.
fn action_attr_response(name: &str) -> (resp: Response)
    ensures
        resp@ == action_response(name@),
{
    let mut attributes: Vec<Attribute> = Vec::new();
    attributes.push(attr("action", name));
    let resp = Response { messages: Vec::new(), attributes };
    proof {
        assert(resp@ =~= action_response(name@));
    }
    resp
}

/// Instantiates the contract from the caller and the attached funds.
pub fn instantiate(info: &MessageInfo, msg: &InstantiateMsg) -> (r: Result<
    (State, OracleValue, Response),
    ContractError,
>)
    ensures
        ({
            let m = spec_instantiate(info@, msg.fee);
            match (r, m) {
                (Ok(rv), Ok(mv)) => rv.0@ == mv.0 && rv.1 == mv.1 && rv.2@ == mv.2,
                (Err(e), Err(me)) => e == me,
                _ => false,
            }
        }),
{
    if info.funds.len() == 0 {
        return Err(ContractError::ConfigurationError);
    }
    let state = State {
        oracle: info.sender.clone(),
        owner: info.sender.clone(),
        fee: msg.fee,
        fees_accrued: 0,
        denom: info.funds[0].denom.clone(),
    };
    let value = OracleValue { value: 0, decimals: 0, timestamp: 0 };
    let resp = Response { messages: Vec::new(), attributes: Vec::new() };
    proof {
        let m = spec_instantiate(info@, msg.fee);
        assert(info@.funds[0] == info.funds@[0]@);
        assert(state@ =~= m->Ok_0.0);
        assert(resp@ =~= empty_response());
    }
    Ok((state, value, resp))
}

/// Sets the oracle address; the caller must be the owner.
pub fn try_grant_role(state: &mut State, info: &MessageInfo, address: Addr) -> (r: Result<
    Response,
    ContractError,
>)
    ensures
        ({
            let (s2, rr) = spec_grant_role(old(state)@, info@.sender, address@);
            final(state)@ == s2 && res_view(r) == rr
        }),
{
    if !(info.sender == state.owner) {
        return Err(ContractError::Unauthorized);
    }
    state.oracle = address;
    proof {
        assert(state@ =~= spec_grant_role(old(state)@, info@.sender, state@.oracle).0);
    }
    Ok(action_attr_response("grant_oracle_role"))
}

/// Overwrites the reading with a new value and decimal shift, stamping the
/// current block time.  Carries no permission check, unlike every other
/// mutating operation: any caller may update.
pub fn try_update_oracle_value(
    value: &mut OracleValue,
    env: &Env,
    _info: &MessageInfo,
    new_value: u128,
    decimals: u128,
) -> (resp: Response)
    ensures
        ({
            let (ov2, rv) = spec_update_value(*old(value), new_value, decimals, env.block_time);
            *final(value) == ov2 && resp@ == rv
        }),
{
    value.value = new_value;
    value.decimals = decimals;
    value.timestamp = env.block_time;
    action_attr_response("update_oracle_value")
}

/// The metered query: checks the attached funds against the fee, accrues the
/// qualifying amount, and reports the current reading as attributes.
pub fn try_query_oracle_value(state: &mut State, value: &OracleValue, info: &MessageInfo) -> (r:
    Result<Response, ContractError>)
    ensures
        ({
            let (s2, rr) = spec_query_value(old(state)@, *value, info@.funds);
            final(state)@ == s2 && res_view(r) == rr
        }),
{
    let ghost fundsv = info@.funds;
    let mut sent: u128 = 0;
    if state.fee > 0 {
        let mut j: usize = 0;
        let mut found = false;
        while j < info.funds.len()
            invariant
                0 <= j <= info.funds.len(),
                fundsv == coins_view(info.funds@),
                fundsv.len() == info.funds@.len(),
                match last_qualifying(fundsv.take(j as int), state.denom@, state.fee) {
                    Some(a) => found && sent == a,
                    None => !found && sent == 0,
                },
                *state == *old(state),
            decreases info.funds.len() - j,
        {
            let c = &info.funds[j];
            proof {
                assert(fundsv.take(j as int + 1).drop_last() =~= fundsv.take(j as int));
                assert(fundsv.take(j as int + 1).last() == c@);
            }
            if c.denom == state.denom && c.amount >= state.fee {
                sent = c.amount;
                found = true;
            }
            j = j + 1;
        }
        proof {
            assert(fundsv.take(info.funds@.len() as int) =~= fundsv);
        }
        if !found {
            return Err(ContractError::InsufficientFunds);
        }
    }
    let new_fees_accrued = match state.fees_accrued.checked_add(sent) {
        Some(v) => v,
        None => {
            return Err(ContractError::ArithmeticOverflow);
        },
    };
    state.fees_accrued = new_fees_accrued;
    let mut attributes: Vec<Attribute> = Vec::new();
    let value_str = u128_to_dec(value.value);
    let decimals_str = u128_to_dec(value.decimals);
    let timestamp_str = u128_to_dec(value.timestamp as u128);
    attributes.push(Attribute { key: "oracle-value".to_owned(), value: value_str });
    attributes.push(Attribute { key: "decimals".to_owned(), value: decimals_str });
    attributes.push(Attribute { key: "timestamp".to_owned(), value: timestamp_str });
    let resp = Response { messages: Vec::new(), attributes };
    proof {
        assert(resp@.attributes =~= query_value_attrs(*value));
        assert(resp@ =~= spec_query_value(old(state)@, *value, fundsv).1->Ok_0);
        assert(state@ =~= spec_query_value(old(state)@, *value, fundsv).0);
    }
    Ok(resp)
}

/// Replaces the fee; the caller must be the owner.
pub fn try_set_fee(state: &mut State, info: &MessageInfo, amount: u128) -> (r: Result<
    Response,
    ContractError,
>)
    ensures
        ({
            let (s2, rr) = spec_set_fee(old(state)@, info@.sender, amount);
            final(state)@ == s2 && res_view(r) == rr
        }),
{
    if !(info.sender == state.owner) {
        return Err(ContractError::Unauthorized);
    }
    state.fee = amount;
    let mut attributes: Vec<Attribute> = Vec::new();
    attributes.push(attr("action", "set_fee"));
    let amount_str = u128_to_dec(amount);
    attributes.push(Attribute { key: "amount".to_owned(), value: amount_str });
    let resp = Response { messages: Vec::new(), attributes };
    proof {
        assert(state@ =~= spec_set_fee(old(state)@, info@.sender, amount).0);
        assert(resp@ =~= spec_set_fee(old(state)@, info@.sender, amount).1->Ok_0);
    }
    Ok(resp)
}

/// Withdraws accrued fees to the owner; the caller must be the owner and the
/// amount must not exceed what was accrued.
pub fn try_withdraw_fees(state: &mut State, info: &MessageInfo, amount: u128) -> (r: Result<
    Response,
    ContractError,
>)
    ensures
        ({
            let (s2, rr) = spec_withdraw_fees(old(state)@, info@.sender, amount);
            final(state)@ == s2 && res_view(r) == rr
        }),
{
    if !(info.sender == state.owner) {
        return Err(ContractError::Unauthorized);
    }
    let new_fees_accrued = match state.fees_accrued.checked_sub(amount) {
        Some(v) => v,
        None => {
            return Err(ContractError::InsufficientBalance);
        },
    };
    state.fees_accrued = new_fees_accrued;
    let mut messages: Vec<BankSend> = Vec::new();
    messages.push(
        BankSend { to_address: state.owner.clone(), amount, denom: state.denom.clone() },
    );
    let mut attributes: Vec<Attribute> = Vec::new();
    attributes.push(attr("action", "withdraw_fees"));
    let amount_str = u128_to_dec(amount);
    attributes.push(Attribute { key: "amount".to_owned(), value: amount_str });
    let resp = Response { messages, attributes };
    proof {
        assert(state@ =~= spec_withdraw_fees(old(state)@, info@.sender, amount).0);
        assert(resp@ =~= spec_withdraw_fees(old(state)@, info@.sender, amount).1->Ok_0);
    }
    Ok(resp)
}

/// Dispatches an execute message to its handler.
pub fn execute(
    state: &mut State,
    value: &mut OracleValue,
    env: &Env,
    info: &MessageInfo,
    msg: ExecuteMsg,
) -> (r: Result<Response, ContractError>)
    ensures
        ({
            let (s2, ov2, rr) = spec_execute(old(state)@, *old(value), env.block_time, info@, msg);
            final(state)@ == s2 && *final(value) == ov2 && res_view(r) == rr
        }),
{
    match msg {
        ExecuteMsg::GrantOracleRole { address } => try_grant_role(state, info, address),
        ExecuteMsg::UpdateOracleValue { value: new_value, decimals } => Ok(
            try_update_oracle_value(value, env, info, new_value, decimals),
        ),
        ExecuteMsg::QueryOracleValue {  } => try_query_oracle_value(state, value, info),
        ExecuteMsg::SetFee { amount } => try_set_fee(state, info, amount),
        ExecuteMsg::WithdrawFees { amount } => try_withdraw_fees(state, info, amount),
    }
}

/// Answers a read-only query from the administrative record; no side effect.
pub fn query(state: &State, msg: &QueryMsg) -> (r: QueryAnswer)
    ensures
        msg is Status ==> (r matches QueryAnswer::Status(a) && a.status@ == "OK"@),
        msg is OracleRole ==> (r matches QueryAnswer::OracleRole(a) && a.address@
            == state.oracle@),
        msg is Fee ==> (r matches QueryAnswer::Fee(a) && a.fee == state.fee),
        msg is FeesAccrued ==> (r matches QueryAnswer::FeesAccrued(a) && a.fees_accrued
            == state.fees_accrued),
{
    match msg {
        QueryMsg::Status {  } => QueryAnswer::Status(StatusResponse { status: "OK".to_owned() }),
        QueryMsg::OracleRole {  } => QueryAnswer::OracleRole(
            OracleRoleResponse { address: state.oracle.clone() },
        ),
        QueryMsg::Fee {  } => QueryAnswer::Fee(FeeResponse { fee: state.fee }),
        QueryMsg::FeesAccrued {  } => QueryAnswer::FeesAccrued(
            FeesAccruedResponse { fees_accrued: state.fees_accrued },
        ),
    }
}

// ------------------------------------------------------------------
// Laws.
// ------------------------------------------------------------------

/// Law: instantiation without funds always fails with `ConfigurationError`;
/// with funds it succeeds, the denomination equals the first funds entry's,
/// nothing is accrued yet, the caller holds both roles, and the reading
/// starts zeroed.
pub proof fn lemma_instantiate_funds(info: MessageInfoV, fee: u128)
    ensures
        info.funds.len() == 0 ==> spec_instantiate(info, fee) == Err::<
            (StateV, OracleValue, ResponseV),
            ContractError,
        >(ContractError::ConfigurationError),
        info.funds.len() > 0 ==> (spec_instantiate(info, fee) matches Ok(t) && t.0.denom
            == info.funds[0].denom && t.0.fees_accrued == 0 && t.0.owner == info.sender
            && t.0.oracle == info.sender && t.0.fee == fee && t.1 == (OracleValue {
            value: 0,
            decimals: 0,
            timestamp: 0,
        })),
{
}

/// Law: an owner withdrawal of at most the accrued fees succeeds, decreases
/// the accrued fees by exactly the amount, changes nothing else, and pays
/// out exactly that amount in the contract's denomination to the owner; a
/// larger withdrawal fails with `InsufficientBalance` and changes nothing.
pub proof fn lemma_withdraw_exact(s: StateV, amount: u128)
    ensures
        amount <= s.fees_accrued ==> ({
            let (s2, r) = spec_withdraw_fees(s, s.owner, amount);
            &&& s2.fees_accrued == s.fees_accrued - amount
            &&& s2 == (StateV { fees_accrued: (s.fees_accrued - amount) as u128, ..s })
            &&& (r matches Ok(resp) && resp.messages == seq![
                (BankSendV { to_address: s.owner, amount, denom: s.denom }),
            ])
        }),
        amount > s.fees_accrued ==> spec_withdraw_fees(s, s.owner, amount) == (
            s,
            Err::<ResponseV, ContractError>(ContractError::InsufficientBalance),
        ),
{
}

/// Law: the administrative operations refuse any caller other than the
/// owner with `Unauthorized` and leave the state unchanged.
pub proof fn lemma_admin_owner_only(s: StateV, sender: Seq<char>, address: Seq<char>, amount: u128)
    requires
        sender != s.owner,
    ensures
        spec_grant_role(s, sender, address) == (
            s,
            Err::<ResponseV, ContractError>(ContractError::Unauthorized),
        ),
        spec_set_fee(s, sender, amount) == (
            s,
            Err::<ResponseV, ContractError>(ContractError::Unauthorized),
        ),
        spec_withdraw_fees(s, sender, amount) == (
            s,
            Err::<ResponseV, ContractError>(ContractError::Unauthorized),
        ),
{
}

/// A qualifying entry exists exactly when `last_qualifying` finds one, and
/// what it finds pays at least the fee.
pub proof fn lemma_last_qualifying_exists(funds: Seq<CoinV>, denom: Seq<char>, fee: u128)
    ensures
        (last_qualifying(funds, denom, fee) is Some) <==> (exists|i: int|
            0 <= i < funds.len() && funds[i].denom == denom && #[trigger] funds[i].amount >= fee),
        last_qualifying(funds, denom, fee) matches Some(a) ==> a >= fee,
    decreases funds.len(),
{
    if funds.len() == 0 {
    } else if funds.last().denom == denom && funds.last().amount >= fee {
        assert(funds[funds.len() - 1].denom == denom && funds[funds.len() - 1].amount >= fee);
    } else {
        lemma_last_qualifying_exists(funds.drop_last(), denom, fee);
        if exists|i: int|
            0 <= i < funds.len() && funds[i].denom == denom && #[trigger] funds[i].amount >= fee {
            let i = choose|i: int|
                0 <= i < funds.len() && funds[i].denom == denom && #[trigger] funds[i].amount
                    >= fee;
            assert(i < funds.len() - 1);
            assert(funds.drop_last()[i].denom == denom && funds.drop_last()[i].amount >= fee);
        }
        if exists|i: int|
            0 <= i < funds.drop_last().len() && funds.drop_last()[i].denom == denom
                && #[trigger] funds.drop_last()[i].amount >= fee {
            let i = choose|i: int|
                0 <= i < funds.drop_last().len() && funds.drop_last()[i].denom == denom
                    && #[trigger] funds.drop_last()[i].amount >= fee;
            assert(funds[i].denom == denom && funds[i].amount >= fee);
        }
    }
}

/// Law: a metered query with fee zero succeeds whatever funds accompany it
/// and accrues nothing; with a positive fee it succeeds exactly when some
/// attached entry pays at least the fee in the contract's denomination and
/// the accrual fits, and then the accrued fees grow by exactly the
/// qualifying entry's amount; with no qualifying entry it fails with
/// `InsufficientFunds` and changes nothing.
pub proof fn lemma_query_value_fee(s: StateV, ov: OracleValue, funds: Seq<CoinV>)
    ensures
        s.fee == 0 ==> spec_query_value(s, ov, funds) == (
            s,
            Ok::<ResponseV, ContractError>(
                (ResponseV { messages: seq![], attributes: query_value_attrs(ov) }),
            ),
        ),
        s.fee > 0 ==> ((spec_query_value(s, ov, funds).1 is Ok) <==> ((exists|i: int|
            0 <= i < funds.len() && funds[i].denom == s.denom && #[trigger] funds[i].amount
                >= s.fee) && s.fees_accrued + last_qualifying(funds, s.denom, s.fee)->Some_0
            <= u128::MAX)),
        s.fee > 0 && (spec_query_value(s, ov, funds).1 is Ok) ==> spec_query_value(
            s,
            ov,
            funds,
        ).0.fees_accrued == s.fees_accrued + last_qualifying(funds, s.denom, s.fee)->Some_0,
        s.fee > 0 && last_qualifying(funds, s.denom, s.fee) is None ==> spec_query_value(
            s,
            ov,
            funds,
        ) == (s, Err::<ResponseV, ContractError>(ContractError::InsufficientFunds)),
{
    lemma_last_qualifying_exists(funds, s.denom, s.fee);
    if s.fee == 0 {
        assert(spec_query_value(s, ov, funds).0 =~= s);
    }
}

/// Law: no execute operation ever changes the owner or the denomination,
/// the accrued fees grow only through the metered query, and they shrink
/// only through a withdrawal by the owner.
pub proof fn lemma_execute_preserves_roles_and_funds(
    s: StateV,
    ov: OracleValue,
    block_time: u64,
    info: MessageInfoV,
    msg: ExecuteMsg,
)
    ensures
        ({
            let (s2, _, _) = spec_execute(s, ov, block_time, info, msg);
            &&& s2.owner == s.owner
            &&& s2.denom == s.denom
            &&& (s2.fees_accrued > s.fees_accrued ==> msg is QueryOracleValue)
            &&& (s2.fees_accrued < s.fees_accrued ==> msg is WithdrawFees && info.sender
                == s.owner)
        }),
{
}

/// Law: after an update, any successful metered query reports exactly the
/// updated value and decimals and the block time of the update, as decimal
/// numerals under the protocol's three keys.
pub proof fn lemma_update_then_query(
    s: StateV,
    ov: OracleValue,
    v: u128,
    d: u128,
    t: u64,
    funds: Seq<CoinV>,
)
    ensures
        ({
            let (ov2, _) = spec_update_value(ov, v, d, t);
            let (s2, r) = spec_query_value(s, ov2, funds);
            r matches Ok(resp) ==> resp.attributes == seq![
                (AttrV { key: "oracle-value"@, value: dec_of(v as nat) }),
                (AttrV { key: "decimals"@, value: dec_of(d as nat) }),
                (AttrV { key: "timestamp"@, value: dec_of(t as nat) }),
            ]
        }),
{
    let (ov2, _) = spec_update_value(ov, v, d, t);
    assert(query_value_attrs(ov2) =~= seq![
        (AttrV { key: "oracle-value"@, value: dec_of(v as nat) }),
        (AttrV { key: "decimals"@, value: dec_of(d as nat) }),
        (AttrV { key: "timestamp"@, value: dec_of(t as nat) }),
    ]);
}

} // verus!
