//! The two entry points of the program.
use soroban_sdk::{Address, Symbol};
use vstd::prelude::*;

use crate::donation::{admission, Action, Donation, DonationError, Report, TransferFailure};
use crate::host::{
    is_contract_address, is_symbol_text, publish_donation_event, publish_room_event, strkey_lead_byte,
    transfer_result, try_transfer, EventPayload, Host, HostCall, TransferResult,
    CONTRACT_STRKEY_LEAD,
};

verus! {

/// The kinds of event that the program publishes.
#[derive(Clone, Copy, Debug, PartialEq, Eq, Structural)]
pub enum EventKind {
    /// A chat room was created; the payload is the room's name.
    RoomCreated,
    /// A donation arrived; the payload is `(payer, amount, recipient)`.
    DonationReceived,
}

/// The topic pair `(category, action)` of each kind of event.
pub open spec fn topics_of(kind: EventKind) -> (Seq<char>, Seq<char>) {
    match kind {
        EventKind::RoomCreated => ("Room"@, "Created"@),
        EventKind::DonationReceived => ("Donation"@, "Received"@),
    }
}

/// The topic pair `(category, action)` of events of `kind`.
pub fn topic_names(kind: EventKind) -> (r: (&'static str, &'static str))
    ensures
        (r.0@, r.1@) == topics_of(kind),
        is_symbol_text(r.0@),
        is_symbol_text(r.1@),
{
    proof {
        reveal_strlit("Room");
        reveal_strlit("Created");
        reveal_strlit("Donation");
        reveal_strlit("Received");
    }
    match kind {
        EventKind::RoomCreated => ("Room", "Created"),
        EventKind::DonationReceived => ("Donation", "Received"),
    }
}

/// Reads how a call of the token contract's `transfer` came out.
pub fn transfer_outcome(r: &TransferResult) -> (t: Result<(), TransferFailure>)
    ensures
        t == transfer_result(*r),
{
    match r {
        Ok(Ok(())) => Ok(()),
        Ok(Err(_)) => Err(TransferFailure::UnexpectedReturn),
        Err(Ok(e)) => Err(TransferFailure::Error(*e)),
        Err(Err(i)) => Err(TransferFailure::Invoke(*i)),
    }
}

/// The event that records the creation of `room`.
pub open spec fn room_event(room: Symbol) -> HostCall {
    HostCall::Publish { category: "Room"@, action: "Created"@, payload: EventPayload::Room(room) }
}

/// The event that records a donation of `amount` from `payer` to
/// `recipient`.
pub open spec fn donation_event(payer: Address, amount: i128, recipient: Address) -> HostCall {
    HostCall::Publish {
        category: "Donation"@,
        action: "Received"@,
        payload: EventPayload::Donation(payer, amount, recipient),
    }
}

/// The calls with an effect that a donation makes when its checks come out
/// as `admission` says and its transfer, if made, comes out as `transfer`:
/// none when a check fails; else one transfer, followed by the donation
/// event only if the transfer succeeded.
pub open spec fn donation_calls(
    from: Address,
    amount: i128,
    to: Address,
    token: Address,
    authorized: bool,
    transfer: Result<(), TransferFailure>,
) -> Seq<HostCall> {
    let call = HostCall::Transfer { token, from, to, amount, outcome: transfer };
    match admission(authorized, amount, is_contract_address(token)) {
        Err(_) => seq![],
        Ok(()) => match transfer {
            Ok(()) => seq![call, donation_event(from, amount, to)],
            Err(_) => seq![call],
        },
    }
}

/// What a donation returns when its checks come out as `admission` says and
/// its transfer, if made, comes out as `transfer`.
pub open spec fn donation_result(
    amount: i128,
    token: Address,
    authorized: bool,
    transfer: Result<(), TransferFailure>,
) -> Result<(), DonationError> {
    match admission(authorized, amount, is_contract_address(token)) {
        Err(e) => Err(e),
        Ok(()) => match transfer {
            Ok(()) => Ok(()),
            Err(f) => Err(DonationError::TransferFailed(f)),
        },
    }
}

/// The program's entry points.
pub struct ChatSupportContract;

impl ChatSupportContract {
    /// Publishes one event with topics `("Room", "Created")` and `room_name` as
    /// its payload, and does nothing else. Accepts every name.
    pub fn log_room_creation(host: &mut Host, room_name: Symbol)
        ensures
            final(host).env == old(host).env,
            final(host).calls@ == old(host).calls@.push(room_event(room_name)),
    {
        let (category, action) = topic_names(EventKind::RoomCreated);
        publish_room_event(host, category, action, room_name);
    }

    /// Moves `amount` from `from` to `admin_address` through the token
    /// contract at `native_token_id`, then publishes one event with topics
    /// `("Donation", "Received")` and payload `(from, amount, admin_address)`.
    ///
    /// `authorized` tells whether `from` authorized the call. Without it, with
    /// a zero or negative amount, or with a token address that is not a
    /// contract's, the donation is refused before anything is done; a failed
    /// transfer publishes nothing and its failure comes back unchanged.
    pub fn donate_to_admin(
        host: &mut Host,
        from: Address,
        amount: i128,
        admin_address: Address,
        native_token_id: Address,
        authorized: bool,
    ) -> (r: Result<(), DonationError>)
        ensures
            final(host).env == old(host).env,
            !authorized ==> r == Err::<(), DonationError>(DonationError::Unauthorized) && final(host).calls@
                == old(host).calls@,
            authorized && amount <= 0 ==> r == Err::<(), DonationError>(DonationError::InvalidAmount)
                && final(host).calls@ == old(host).calls@,
            authorized && amount > 0 && !is_contract_address(native_token_id) ==> r == Err::<
                (),
                DonationError,
            >(DonationError::NotATokenContract) && final(host).calls@ == old(host).calls@,
            r == Ok::<(), DonationError>(()) ==> final(host).calls@ == old(host).calls@ + seq![
                HostCall::Transfer {
                    token: native_token_id,
                    from,
                    to: admin_address,
                    amount,
                    outcome: Ok(()),
                },
                donation_event(from, amount, admin_address),
            ],
            forall|f: TransferFailure|
                r == Err::<(), DonationError>(DonationError::TransferFailed(f)) ==> final(host).calls@
                    == old(host).calls@.push(
                    HostCall::Transfer {
                        token: native_token_id,
                        from,
                        to: admin_address,
                        amount,
                        outcome: Err(f),
                    },
                ),
            exists|transfer: Result<(), TransferFailure>|
                {
                    &&& final(host).calls@ == old(host).calls@ + donation_calls(
                        from,
                        amount,
                        admin_address,
                        native_token_id,
                        authorized,
                        transfer,
                    )
                    &&& r == donation_result(amount, native_token_id, authorized, transfer)
                    &&& Some(r) == Donation::start(&from, &admin_address, &native_token_id, amount).run(
                        authorized,
                        is_contract_address(native_token_id),
                        transfer,
                    ).1.outcome()
                },
    {
        let token_is_contract = strkey_lead_byte(&native_token_id) == CONTRACT_STRKEY_LEAD;
        let ghost old_calls = host.calls@;
        let ghost mut transfer: Result<(), TransferFailure> = Ok(());
        let mut flow = Donation::new(&from, &admin_address, &native_token_id, amount);
        flow.advance(Report::Checked { authorized, token_is_contract });
        if let Action::Transfer { token, payer, recipient, amount } = flow.action() {
            let t = transfer_outcome(&try_transfer(host, token, payer, recipient, amount));
            proof {
                transfer = t;
            }
            flow.advance(Report::Transfer(t));
            if let Action::Publish { payer, amount, recipient } = flow.action() {
                let (category, action) = topic_names(EventKind::DonationReceived);
                publish_donation_event(host, category, action, payer, amount, recipient);
                flow.advance(Report::Published);
            }
        }
        proof {
            reveal_with_fuel(Donation::run, 4);
        }
        assert(Donation::start(&from, &admin_address, &native_token_id, amount).run(
            authorized,
            token_is_contract,
            transfer,
        ).1 == flow);
        assert(host.calls@ =~= old_calls + donation_calls(
            from,
            amount,
            admin_address,
            native_token_id,
            authorized,
            transfer,
        ));
        let r = match flow.result() {
            Some(r) => r,
            None => Err(DonationError::Unauthorized),
        };
        assert(r == donation_result(amount, native_token_id, authorized, transfer));
        r
    }
}

} // verus!
