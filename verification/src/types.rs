//! Types shared by the two contracts.
//!
//! These mirror the shapes the host runtime hands a contract on entry — the
//! caller, the funds attached to a call, the block environment — and the
//! shapes a contract hands back: attributes and events.  Each executable type
//! has a ghost view over `Seq` so contracts can be stated mathematically.

use vstd::prelude::*;
use vstd::string::StrSliceExecFns;

verus! {

/// Compares two string slices by their characters.
pub fn str_eq(a: &str, b: &str) -> (r: bool)
    ensures
        r == (a@ == b@),
{
    let n = a.unicode_len();
    if n != b.unicode_len() {
        return false;
    }
    let mut i: usize = 0;
    while i < n
        invariant
            0 <= i <= n,
            n == a@.len(),
            n == b@.len(),
            forall|k: int| 0 <= k < i ==> a@[k] == b@[k],
        decreases n - i,
    {
        if a.get_char(i) != b.get_char(i) {
            return false;
        }
        i = i + 1;
    }
    proof {
        assert(a@ =~= b@);
    }
    true
}

/// A contract or account address, held in its string form.
pub type Addr = String;

/// An amount of a fungible token: a denomination and how much of it.
#[derive(Clone, Debug)]
pub struct Coin {
    pub denom: String,
    pub amount: u128,
}

#[verifier::ext_equal]
pub ghost struct CoinV {
    pub denom: Seq<char>,
    pub amount: u128,
}

impl View for Coin {
    type V = CoinV;

    open spec fn view(&self) -> CoinV {
        CoinV { denom: self.denom@, amount: self.amount }
    }
}

/// The views of a sequence of coins.
pub open spec fn coins_view(cs: Seq<Coin>) -> Seq<CoinV> {
    cs.map_values(|c: Coin| c@)
}

/// Who invoked the entry operation and what funds accompany the call.
#[derive(Clone, Debug)]
pub struct MessageInfo {
    pub sender: Addr,
    pub funds: Vec<Coin>,
}

#[verifier::ext_equal]
pub ghost struct MessageInfoV {
    pub sender: Seq<char>,
    pub funds: Seq<CoinV>,
}

impl View for MessageInfo {
    type V = MessageInfoV;

    open spec fn view(&self) -> MessageInfoV {
        MessageInfoV { sender: self.sender@, funds: coins_view(self.funds@) }
    }
}

/// The part of the block environment the contracts read: the block time in
/// seconds since epoch, and the executing contract's own address.
#[derive(Clone, Debug)]
pub struct Env {
    pub block_time: u64,
    pub contract_address: Addr,
}

/// A key/value pair attached to a transaction's result.  The attribute set
/// is the only channel by which one contract returns data to another.
#[derive(Clone, Debug)]
pub struct Attribute {
    pub key: String,
    pub value: String,
}

#[verifier::ext_equal]
pub ghost struct AttrV {
    pub key: Seq<char>,
    pub value: Seq<char>,
}

impl View for Attribute {
    type V = AttrV;

    open spec fn view(&self) -> AttrV {
        AttrV { key: self.key@, value: self.value@ }
    }
}

/// The views of a sequence of attributes.
pub open spec fn attrs_view(attrs: Seq<Attribute>) -> Seq<AttrV> {
    attrs.map_values(|a: Attribute| a@)
}

/// A group of attributes emitted by a sub-call, delivered back to the
/// caller's reply operation.
#[derive(Clone, Debug)]
pub struct Event {
    pub attributes: Vec<Attribute>,
}

#[verifier::ext_equal]
pub ghost struct EventV {
    pub attributes: Seq<AttrV>,
}

impl View for Event {
    type V = EventV;

    open spec fn view(&self) -> EventV {
        EventV { attributes: attrs_view(self.attributes@) }
    }
}

/// The views of a sequence of events.
pub open spec fn events_view(events: Seq<Event>) -> Seq<EventV> {
    events.map_values(|e: Event| e@)
}

/// The attribute of the reply event a particular failure is about.
#[derive(Clone, Copy, Debug, PartialEq, Eq, Structural)]
pub enum ReplyField {
    Value,
    Decimals,
    Timestamp,
}

/// How a sub-call reply can break the cross-contract protocol.
#[derive(Clone, Copy, Debug, PartialEq, Eq, Structural)]
pub enum ReplyFault {
    /// The sub-call result was the failure variant although a reply was
    /// requested on success only.
    ErrorResult,
    /// No event of the reply carries the value attribute.
    MissingEvent,
    /// The selected event lacks one of the expected attribute keys.
    MissingAttribute(ReplyField),
}

/// Everything that can go wrong in an entry operation.  Any error aborts the
/// transaction; the host then rolls back every storage write it performed.
#[derive(Clone, Copy, Debug, PartialEq, Eq, Structural)]
pub enum ContractError {
    /// Required setup input is missing: no funds accompanied instantiation,
    /// so no denomination can be determined.
    ConfigurationError,
    /// The caller is not allowed to perform the operation.
    Unauthorized,
    /// The funds attached to a metered query do not cover the fee.
    InsufficientFunds,
    /// A withdrawal asks for more than the accrued fees.
    InsufficientBalance,
    /// A checked addition exceeded the integer range.
    ArithmeticOverflow,
    /// A checked subtraction fell below zero.
    ArithmeticUnderflow,
    /// A reply arrived under an id no sub-call was tagged with.
    UnknownReplyId(u64),
    /// An expected event or attribute is absent from a sub-call reply.
    ProtocolViolation(ReplyFault),
    /// A reply attribute does not hold a decimal numeral of the right width.
    ParseError(ReplyField),
    /// A persisted record is missing or corrupt; never produced here, kept
    /// for the host glue that loads and saves the records.
    StorageError,
}

} // verus!
