use chat_support_contract::contract::transfer_outcome;
use chat_support_contract::donation::check_donation;
use chat_support_contract::{
    topic_names, Action, Donation, DonationError, EventKind, Report, Stage, TransferFailure,
};
use soroban_sdk::{ConversionError, InvokeError};

const PAYER: u64 = 1;
const ADMIN: u64 = 2;
const TOKEN: u64 = 3;

/// Drives a donation of `amount` from `PAYER` to `ADMIN` against a host that
/// answers with `authorized` and `transfer`, and returns the actions asked
/// for and the outcome.
fn drive(
    amount: i128,
    authorized: bool,
    transfer: Result<(), TransferFailure>,
) -> (Vec<Action<u64>>, Option<Result<(), DonationError>>) {
    let mut flow = Donation::new(PAYER, ADMIN, TOKEN, amount);
    let mut actions = Vec::new();
    for _ in 0..10 {
        let action = flow.action();
        actions.push(action);
        match action {
            Action::Authenticate => flow.advance(Report::Checked { authorized, token_is_contract: true }),
            Action::Transfer { .. } => flow.advance(Report::Transfer(transfer)),
            Action::Publish { .. } => flow.advance(Report::Published),
            Action::Finish => break,
        }
    }
    (actions, flow.result())
}

#[test]
fn authorized_positive_donation_transfers_once_and_publishes_once() {
    let (actions, outcome) = drive(250, true, Ok(()));
    assert_eq!(
        actions,
        vec![
            Action::Authenticate,
            Action::Transfer { token: TOKEN, payer: PAYER, recipient: ADMIN, amount: 250 },
            Action::Publish { payer: PAYER, amount: 250, recipient: ADMIN },
            Action::Finish,
        ]
    );
    assert_eq!(outcome, Some(Ok(())));
}

#[test]
fn zero_amount_is_refused_without_effects() {
    let (actions, outcome) = drive(0, true, Ok(()));
    assert_eq!(actions, vec![Action::Authenticate, Action::Finish]);
    assert_eq!(outcome, Some(Err(DonationError::InvalidAmount)));
}

#[test]
fn negative_one_is_refused_without_effects() {
    let (actions, outcome) = drive(-1, true, Ok(()));
    assert_eq!(actions, vec![Action::Authenticate, Action::Finish]);
    assert_eq!(outcome, Some(Err(DonationError::InvalidAmount)));
}

#[test]
fn smallest_amount_is_refused_without_effects() {
    let (actions, outcome) = drive(i128::MIN, true, Err(TransferFailure::UnexpectedReturn));
    assert_eq!(actions, vec![Action::Authenticate, Action::Finish]);
    assert_eq!(outcome, Some(Err(DonationError::InvalidAmount)));
}

#[test]
fn largest_amount_goes_through() {
    let (actions, outcome) = drive(i128::MAX, true, Ok(()));
    assert_eq!(
        actions[1],
        Action::Transfer { token: TOKEN, payer: PAYER, recipient: ADMIN, amount: i128::MAX }
    );
    assert_eq!(actions[2], Action::Publish { payer: PAYER, amount: i128::MAX, recipient: ADMIN });
    assert_eq!(outcome, Some(Ok(())));
}

#[test]
fn unauthorized_payer_is_refused_whatever_the_amount() {
    for amount in [250, 0, -1, i128::MIN, i128::MAX] {
        let (actions, outcome) = drive(amount, false, Ok(()));
        assert_eq!(actions, vec![Action::Authenticate, Action::Finish]);
        assert_eq!(outcome, Some(Err(DonationError::Unauthorized)));
    }
}

#[test]
fn failed_transfer_publishes_nothing_and_keeps_its_error() {
    let failure = TransferFailure::Error(soroban_sdk::Error::from_contract_error(10));
    let (actions, outcome) = drive(1000, true, Err(failure));
    assert_eq!(
        actions,
        vec![
            Action::Authenticate,
            Action::Transfer { token: TOKEN, payer: PAYER, recipient: ADMIN, amount: 1000 },
            Action::Finish,
        ]
    );
    assert_eq!(outcome, Some(Err(DonationError::TransferFailed(failure))));
}

#[test]
fn answers_that_were_not_asked_for_change_nothing() {
    let mut flow = Donation::new(PAYER, ADMIN, TOKEN, 5);
    flow.advance(Report::Published);
    flow.advance(Report::Transfer(Ok(())));
    assert_eq!(flow.stage, Stage::AwaitingAuth);
    assert_eq!(flow.result(), None);
    flow.advance(Report::Checked { authorized: true, token_is_contract: true });
    flow.advance(Report::Checked { authorized: false, token_is_contract: false });
    assert_eq!(flow.stage, Stage::AwaitingTransfer);
    assert_eq!(
        flow.action(),
        Action::Transfer { token: TOKEN, payer: PAYER, recipient: ADMIN, amount: 5 }
    );
}

#[test]
fn finished_donation_stays_finished() {
    let mut flow = Donation::new(PAYER, ADMIN, TOKEN, 0);
    flow.advance(Report::Checked { authorized: true, token_is_contract: true });
    assert_eq!(flow.stage, Stage::Failed(DonationError::InvalidAmount));
    flow.advance(Report::Checked { authorized: true, token_is_contract: true });
    flow.advance(Report::Transfer(Ok(())));
    flow.advance(Report::Published);
    assert_eq!(flow.stage, Stage::Failed(DonationError::InvalidAmount));
    assert_eq!(flow.action(), Action::Finish);
}

#[test]
fn checks_come_in_order() {
    assert_eq!(check_donation(false, 0, false), Err(DonationError::Unauthorized));
    assert_eq!(check_donation(false, 10, true), Err(DonationError::Unauthorized));
    assert_eq!(check_donation(true, 0, false), Err(DonationError::InvalidAmount));
    assert_eq!(check_donation(true, -7, true), Err(DonationError::InvalidAmount));
    assert_eq!(check_donation(true, 1, false), Err(DonationError::NotATokenContract));
    assert_eq!(check_donation(true, 1, true), Ok(()));
}

#[test]
fn account_address_as_token_is_refused_before_any_transfer() {
    let mut flow = Donation::new(PAYER, ADMIN, TOKEN, 250);
    flow.advance(Report::Checked { authorized: true, token_is_contract: false });
    assert_eq!(flow.action(), Action::Finish);
    assert_eq!(flow.result(), Some(Err(DonationError::NotATokenContract)));
}

#[test]
fn transfer_outcome_keeps_the_failure() {
    let error = soroban_sdk::Error::from_contract_error(10);
    assert_eq!(transfer_outcome(&Ok(Ok(()))), Ok(()));
    assert_eq!(
        transfer_outcome(&Ok(Err(ConversionError))),
        Err(TransferFailure::UnexpectedReturn)
    );
    assert_eq!(transfer_outcome(&Err(Ok(error))), Err(TransferFailure::Error(error)));
    assert_eq!(
        transfer_outcome(&Err(Err(InvokeError::Abort))),
        Err(TransferFailure::Invoke(InvokeError::Abort))
    );
    assert_eq!(
        transfer_outcome(&Err(Err(InvokeError::Contract(7)))),
        Err(TransferFailure::Invoke(InvokeError::Contract(7)))
    );
}

#[test]
fn event_topics() {
    assert_eq!(topic_names(EventKind::RoomCreated), ("Room", "Created"));
    assert_eq!(topic_names(EventKind::DonationReceived), ("Donation", "Received"));
}
