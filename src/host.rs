//! The soroban-sdk items that the contract relies on, what it assumes of
//! them, and a record of the calls it makes to the host.
use soroban_sdk::{Address, ConversionError, Env, InvokeError, Symbol};
use vstd::prelude::*;

use crate::donation::TransferFailure;

verus! {

#[verifier::external_type_specification]
#[verifier::external_body]
pub struct ExEnv(Env);

#[verifier::external_type_specification]
#[verifier::external_body]
pub struct ExAddress(Address);

#[verifier::external_type_specification]
#[verifier::external_body]
pub struct ExSymbol(Symbol);

#[verifier::external_type_specification]
#[verifier::external_body]
pub struct ExHostError(soroban_sdk::Error);

#[verifier::external_type_specification]
#[verifier::external_body]
pub struct ExConversionError(ConversionError);

#[verifier::external_type_specification]
#[verifier::external_body]
pub struct ExInvokeError(InvokeError);

/// What a call of a token contract's `transfer` comes back with: the
/// decoded return value, or the error that the call ended in.
pub type TransferResult = Result<Result<(), ConversionError>, Result<soroban_sdk::Error, InvokeError>>;

/// How a call of the token contract's `transfer` came out: success when it
/// returned the unit value, else its failure as the call reported it.
pub open spec fn transfer_result(r: TransferResult) -> Result<(), TransferFailure> {
    match r {
        Ok(Ok(())) => Ok(()),
        Ok(Err(_)) => Err(TransferFailure::UnexpectedReturn),
        Err(Ok(e)) => Err(TransferFailure::Error(e)),
        Err(Err(i)) => Err(TransferFailure::Invoke(i)),
    }
}

/// A character that a symbol may hold: an ASCII letter, digit or `_`.
pub open spec fn is_symbol_char(c: char) -> bool {
    ('a' <= c && c <= 'z') || ('A' <= c && c <= 'Z') || ('0' <= c && c <= '9') || c == '_'
}

/// Text that can be made into a symbol: at most 32 symbol characters.
pub open spec fn is_symbol_text(s: Seq<char>) -> bool {
    &&& s.len() <= 32
    &&& forall|i: int| 0 <= i < s.len() ==> is_symbol_char(#[trigger] s[i])
}

/// The first byte of an address's strkey: `G` for an account, `C` for a
/// contract.
pub uninterp spec fn strkey_lead(a: Address) -> u8;

/// The strkey letter of a contract address, `C`.
pub const CONTRACT_STRKEY_LEAD: u8 = 67;

/// Whether `a` is the address of a contract.
pub open spec fn is_contract_address(a: Address) -> bool {
    strkey_lead(a) == CONTRACT_STRKEY_LEAD
}

/// The payload of an event.
pub enum EventPayload {
    /// A room's name.
    Room(Symbol),
    /// `(payer, amount, recipient)` of a donation.
    Donation(Address, i128, Address),
}

/// One call to the host that has an effect.
pub enum HostCall {
    /// A call of `transfer(from, to, amount)` on the token contract at
    /// `token`, and how it came out.
    Transfer { token: Address, from: Address, to: Address, amount: i128, outcome: Result<(), TransferFailure> },
    /// An event published with topics `(category, action)` and `payload`.
    Publish { category: Seq<char>, action: Seq<char>, payload: EventPayload },
}

/// The host environment of one invocation, with the record of the calls
/// with an effect that were made to it through this library.
pub struct Host {
    pub env: Env,
    pub calls: Ghost<Seq<HostCall>>,
}

impl Host {
    /// The host `env`, with no calls recorded yet.
    pub fn new(env: Env) -> (h: Host)
        ensures
            h.env == env,
            h.calls@ == Seq::<HostCall>::empty(),
    {
        Host { env, calls: Ghost(Seq::empty()) }
    }
}

/// Relies on `Address::to_string` and `String::copy_into_slice`: the strkey
/// of an account or contract address has 56 characters; returns its first.
#[verifier::external_body]
pub(crate) fn strkey_lead_byte(a: &Address) -> (r: u8)
    ensures
        r == strkey_lead(*a),
{
    let mut key = [0u8; 56];
    a.to_string().copy_into_slice(&mut key);
    key[0]
}

/// Relies on `token::TokenClient::new` and its `try_transfer`: one call of
/// `transfer(from, to, amount)` on the contract at `token`. A failure that
/// the host can recover from (the token contract refused, panicked or
/// returned an error) comes back as an `Err` instead of aborting the
/// invocation. Where `token` is not a contract address the host aborts the
/// invocation, hence the `requires`; an exhausted budget or an internal host
/// error aborts it as well.
#[verifier::external_body]
pub(crate) fn try_transfer(host: &mut Host, token: &Address, from: &Address, to: &Address, amount: i128) -> (r: TransferResult)
    requires
        is_contract_address(*token),
    ensures
        final(host).env == old(host).env,
        final(host).calls@ == old(host).calls@.push(HostCall::Transfer {
            token: *token,
            from: *from,
            to: *to,
            amount,
            outcome: transfer_result(r),
        }),
{
    soroban_sdk::token::TokenClient::new(&host.env, token).try_transfer(from, to, &amount)
}

/// Relies on `Symbol::new`, which panics only on text that is longer than 32
/// characters or holds a character outside `a-zA-Z0-9_`, and on
/// `Events::publish`: publishes one event with topics `(category, action)`
/// and the room's name as its payload.
#[verifier::external_body]
pub(crate) fn publish_room_event(host: &mut Host, category: &str, action: &str, room: Symbol)
    requires
        is_symbol_text(category@),
        is_symbol_text(action@),
    ensures
        final(host).env == old(host).env,
        final(host).calls@ == old(host).calls@.push(HostCall::Publish {
            category: category@,
            action: action@,
            payload: EventPayload::Room(room),
        }),
{
    let topics = (Symbol::new(&host.env, category), Symbol::new(&host.env, action));
    host.env.events().publish(topics, room)
}

/// Relies on `Symbol::new`, as above, and on `Events::publish`: publishes
/// one event with topics `(category, action)` and the payload
/// `(payer, amount, recipient)`.
#[verifier::external_body]
pub(crate) fn publish_donation_event(
    host: &mut Host,
    category: &str,
    action: &str,
    payer: &Address,
    amount: i128,
    recipient: &Address,
)
    requires
        is_symbol_text(category@),
        is_symbol_text(action@),
    ensures
        final(host).env == old(host).env,
        final(host).calls@ == old(host).calls@.push(HostCall::Publish {
            category: category@,
            action: action@,
            payload: EventPayload::Donation(*payer, amount, *recipient),
        }),
{
    let topics = (Symbol::new(&host.env, category), Symbol::new(&host.env, action));
    host.env.events().publish(topics, (payer.clone(), amount, recipient.clone()))
}

} // verus!
