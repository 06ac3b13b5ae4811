//! The decisions of one donation, apart from the host that carries them out.
//!
//! A donation first takes in whether the payer authorized it and whether the
//! token address names a contract, then checks the amount, then asks for one
//! transfer, and only after the transfer succeeded
//! asks for the donation event to be published. Each step is an [`Action`];
//! what the host answers is a [`Report`]. The parties are of any type `A`:
//! the contract uses references to addresses.
use soroban_sdk::InvokeError;
use vstd::prelude::*;

verus! {

/// How a transfer failed, as the token contract's call reported it.
#[derive(Clone, Copy, Debug, PartialEq, Eq)]
pub enum TransferFailure {
    /// The call ended in this error, of the host or of the token contract.
    Error(soroban_sdk::Error),
    /// The call failed, and its error could not be read as an error value.
    Invoke(InvokeError),
    /// The call returned, but not the unit value that `transfer` returns.
    UnexpectedReturn,
}

/// Why a donation did not go through.
#[derive(Clone, Copy, Debug, PartialEq, Eq)]
pub enum DonationError {
    /// The payer did not authorize the call.
    Unauthorized,
    /// The amount is zero or negative.
    InvalidAmount,
    /// The token address is not the address of a contract.
    NotATokenContract,
    /// The token contract declined or could not complete the transfer; its
    /// failure, unchanged.
    TransferFailed(TransferFailure),
}

/// Where a donation stands.
#[derive(Clone, Copy, Debug, PartialEq, Eq)]
pub enum Stage {
    AwaitingAuth,
    AwaitingTransfer,
    AwaitingPublish,
    Succeeded,
    Failed(DonationError),
}

/// What the host is asked to do next.
#[derive(Clone, Copy, Debug, PartialEq, Eq)]
pub enum Action<A> {
    /// Tell whether the payer authorized the call, and whether the token
    /// address is that of a contract.
    Authenticate,
    /// Move `amount` from `payer` to `recipient` through the token contract
    /// at `token`.
    Transfer { token: A, payer: A, recipient: A, amount: i128 },
    /// Publish the donation event with payload `(payer, amount, recipient)`.
    Publish { payer: A, amount: i128, recipient: A },
    /// Nothing more: the donation has its outcome.
    Finish,
}

/// What the host answers to an [`Action`].
#[derive(Clone, Copy, Debug, PartialEq, Eq)]
pub enum Report {
    /// Whether the payer authorized the call, and whether the token address
    /// is that of a contract.
    Checked { authorized: bool, token_is_contract: bool },
    /// How the transfer came out.
    Transfer(Result<(), TransferFailure>),
    /// The event was published.
    Published,
}

/// One donation of `amount` from `payer` to `recipient` in the token at
/// `token`, at stage `stage`.
#[derive(Clone, Copy, Debug, PartialEq, Eq)]
pub struct Donation<A> {
    pub payer: A,
    pub recipient: A,
    pub token: A,
    pub amount: i128,
    pub stage: Stage,
}

/// The outcome of the checks that come before any effect: authorization
/// first, then the amount, then the token address.
pub open spec fn admission(authorized: bool, amount: i128, token_is_contract: bool) -> Result<(), DonationError> {
    if !authorized {
        Err(DonationError::Unauthorized)
    } else if amount <= 0 {
        Err(DonationError::InvalidAmount)
    } else if !token_is_contract {
        Err(DonationError::NotATokenContract)
    } else {
        Ok(())
    }
}

/// Checks a donation before anything is done on its behalf.
pub fn check_donation(authorized: bool, amount: i128, token_is_contract: bool) -> (r: Result<(), DonationError>)
    ensures
        r == admission(authorized, amount, token_is_contract),
{
    if !authorized {
        Err(DonationError::Unauthorized)
    } else if amount <= 0 {
        Err(DonationError::InvalidAmount)
    } else if !token_is_contract {
        Err(DonationError::NotATokenContract)
    } else {
        Ok(())
    }
}

/// What the host answers to `a` when the payer's authorization is
/// `authorized`, the token address's kind is `token_is_contract`, and the
/// transfer, if asked for, comes out as `transfer`.
pub open spec fn response<A>(
    a: Action<A>,
    authorized: bool,
    token_is_contract: bool,
    transfer: Result<(), TransferFailure>,
) -> Report {
    match a {
        Action::Authenticate => Report::Checked { authorized, token_is_contract },
        Action::Transfer { .. } => Report::Transfer(transfer),
        _ => Report::Published,
    }
}

impl<A: Copy> Donation<A> {
    /// A donation that has not started.
    pub open spec fn start(payer: A, recipient: A, token: A, amount: i128) -> Donation<A> {
        Donation { payer, recipient, token, amount, stage: Stage::AwaitingAuth }
    }

    /// How many host answers the donation may still wait for.
    pub open spec fn pending(self) -> nat {
        match self.stage {
            Stage::AwaitingAuth => 3,
            Stage::AwaitingTransfer => 2,
            Stage::AwaitingPublish => 1,
            _ => 0,
        }
    }

    /// The action that the donation asks for at its stage.
    pub open spec fn next_action(self) -> Action<A> {
        match self.stage {
            Stage::AwaitingAuth => Action::Authenticate,
            Stage::AwaitingTransfer => Action::Transfer {
                token: self.token,
                payer: self.payer,
                recipient: self.recipient,
                amount: self.amount,
            },
            Stage::AwaitingPublish => Action::Publish {
                payer: self.payer,
                amount: self.amount,
                recipient: self.recipient,
            },
            _ => Action::Finish,
        }
    }

    /// The donation after the host answered `r`. An answer to an action that
    /// was not asked for leaves it as it is.
    pub open spec fn after(self, r: Report) -> Donation<A> {
        let stage = match (self.stage, r) {
            (Stage::AwaitingAuth, Report::Checked { authorized, token_is_contract }) => match admission(
                authorized,
                self.amount,
                token_is_contract,
            ) {
                Ok(()) => Stage::AwaitingTransfer,
                Err(e) => Stage::Failed(e),
            },
            (Stage::AwaitingTransfer, Report::Transfer(t)) => match t {
                Ok(()) => Stage::AwaitingPublish,
                Err(f) => Stage::Failed(DonationError::TransferFailed(f)),
            },
            (Stage::AwaitingPublish, Report::Published) => Stage::Succeeded,
            (s, _) => s,
        };
        Donation { stage, ..self }
    }

    /// The outcome, once the donation has one.
    pub open spec fn outcome(self) -> Option<Result<(), DonationError>> {
        match self.stage {
            Stage::Succeeded => Some(Ok(())),
            Stage::Failed(e) => Some(Err(e)),
            _ => None,
        }
    }

    /// The actions asked for from this point on, up to and including
    /// `Finish`, and the donation at its end, when the host answers as
    /// `response` says.
    pub open spec fn run(self, authorized: bool, token_is_contract: bool, transfer: Result<(), TransferFailure>) -> (
        Seq<Action<A>>,
        Donation<A>,
    )
        decreases self.pending(),
    {
        let a = self.next_action();
        if self.pending() == 0 {
            (seq![a], self)
        } else {
            let rest = self.after(response(a, authorized, token_is_contract, transfer)).run(
                authorized,
                token_is_contract,
                transfer,
            );
            (seq![a] + rest.0, rest.1)
        }
    }

    /// A donation of `amount` from `payer` to `recipient` in the token at
    /// `token`, not started.
    pub fn new(payer: A, recipient: A, token: A, amount: i128) -> (d: Donation<A>)
        ensures
            d == Donation::start(payer, recipient, token, amount),
    {
        Donation { payer, recipient, token, amount, stage: Stage::AwaitingAuth }
    }

    /// The action that the donation asks for.
    pub fn action(&self) -> (a: Action<A>)
        ensures
            a == self.next_action(),
    {
        match self.stage {
            Stage::AwaitingAuth => Action::Authenticate,
            Stage::AwaitingTransfer => Action::Transfer {
                token: self.token,
                payer: self.payer,
                recipient: self.recipient,
                amount: self.amount,
            },
            Stage::AwaitingPublish => Action::Publish {
                payer: self.payer,
                amount: self.amount,
                recipient: self.recipient,
            },
            _ => Action::Finish,
        }
    }

    /// Takes in the host's answer `r`.
    pub fn advance(&mut self, r: Report)
        ensures
            *final(self) == old(self).after(r),
    {
        let stage = match (self.stage, r) {
            (Stage::AwaitingAuth, Report::Checked { authorized, token_is_contract }) => match check_donation(
                authorized,
                self.amount,
                token_is_contract,
            ) {
                Ok(()) => Stage::AwaitingTransfer,
                Err(e) => Stage::Failed(e),
            },
            (Stage::AwaitingTransfer, Report::Transfer(t)) => match t {
                Ok(()) => Stage::AwaitingPublish,
                Err(f) => Stage::Failed(DonationError::TransferFailed(f)),
            },
            (Stage::AwaitingPublish, Report::Published) => Stage::Succeeded,
            (s, _) => s,
        };
        self.stage = stage;
    }

    /// The outcome, or `None` while the donation waits for the host.
    pub fn result(&self) -> (r: Option<Result<(), DonationError>>)
        ensures
            r == self.outcome(),
    {
        match self.stage {
            Stage::Succeeded => Some(Ok(())),
            Stage::Failed(e) => Some(Err(e)),
            _ => None,
        }
    }
}

/// An authorized donation of a positive amount, to a token contract, whose
/// transfer succeeds asks
/// for exactly one transfer of that amount from the payer to the recipient,
/// then exactly one donation event with payload `(payer, amount, recipient)`,
/// and succeeds.
pub proof fn lemma_donation_succeeds<A: Copy>(payer: A, recipient: A, token: A, amount: i128)
    requires
        amount > 0,
    ensures
        Donation::start(payer, recipient, token, amount).run(true, true, Ok(())).0 == seq![
            Action::Authenticate,
            Action::Transfer { token, payer, recipient, amount },
            Action::Publish { payer, amount, recipient },
            Action::Finish,
        ],
        Donation::start(payer, recipient, token, amount).run(true, true, Ok(())).1.outcome() == Some(
            Ok::<(), DonationError>(()),
        ),
{
    let d0 = Donation::start(payer, recipient, token, amount);
    let d1 = d0.after(Report::Checked { authorized: true, token_is_contract: true });
    let d2 = d1.after(Report::Transfer(Ok(())));
    let d3 = d2.after(Report::Published);
    assert(d3.run(true, true, Ok(())).0 == seq![Action::<A>::Finish]);
    assert(d2.run(true, true, Ok(())).0 =~= seq![Action::Publish { payer, amount, recipient }, Action::Finish]);
    assert(d1.run(true, true, Ok(())).0 =~= seq![
        Action::Transfer { token, payer, recipient, amount },
        Action::Publish { payer, amount, recipient },
        Action::Finish,
    ]);
    assert(d0.run(true, true, Ok(())).0 =~= seq![
        Action::Authenticate,
        Action::Transfer { token, payer, recipient, amount },
        Action::Publish { payer, amount, recipient },
        Action::Finish,
    ]);
}

/// An authorized donation of zero or a negative amount fails with
/// `InvalidAmount` right after authentication: no transfer, no event.
pub proof fn lemma_nonpositive_amount_rejected<A: Copy>(
    payer: A,
    recipient: A,
    token: A,
    amount: i128,
    token_is_contract: bool,
    transfer: Result<(), TransferFailure>,
)
    requires
        amount <= 0,
    ensures
        Donation::start(payer, recipient, token, amount).run(true, token_is_contract, transfer).0 == seq![
            Action::<A>::Authenticate,
            Action::Finish,
        ],
        Donation::start(payer, recipient, token, amount).run(true, token_is_contract, transfer).1.outcome() == Some(
            Err::<(), DonationError>(DonationError::InvalidAmount),
        ),
{
    let d0 = Donation::start(payer, recipient, token, amount);
    let d1 = d0.after(Report::Checked { authorized: true, token_is_contract });
    assert(d1.run(true, token_is_contract, transfer).0 == seq![Action::<A>::Finish]);
    assert(d0.run(true, token_is_contract, transfer).0 =~= seq![Action::<A>::Authenticate, Action::Finish]);
}

/// A donation that the payer did not authorize fails with `Unauthorized`,
/// whatever the amount: no transfer, no event.
pub proof fn lemma_unauthorized_rejected<A: Copy>(
    payer: A,
    recipient: A,
    token: A,
    amount: i128,
    token_is_contract: bool,
    transfer: Result<(), TransferFailure>,
)
    ensures
        Donation::start(payer, recipient, token, amount).run(false, token_is_contract, transfer).0 == seq![
            Action::<A>::Authenticate,
            Action::Finish,
        ],
        Donation::start(payer, recipient, token, amount).run(false, token_is_contract, transfer).1.outcome() == Some(
            Err::<(), DonationError>(DonationError::Unauthorized),
        ),
{
    let d0 = Donation::start(payer, recipient, token, amount);
    let d1 = d0.after(Report::Checked { authorized: false, token_is_contract });
    assert(d1.run(false, token_is_contract, transfer).0 == seq![Action::<A>::Finish]);
    assert(d0.run(false, token_is_contract, transfer).0 =~= seq![Action::<A>::Authenticate, Action::Finish]);
}

/// A donation that passed its checks but whose transfer failed with
/// `failure` asks for exactly that one transfer, publishes no event, and
/// fails with `TransferFailed` carrying `failure` unchanged.
pub proof fn lemma_failed_transfer_publishes_nothing<A: Copy>(
    payer: A,
    recipient: A,
    token: A,
    amount: i128,
    failure: TransferFailure,
)
    requires
        amount > 0,
    ensures
        Donation::start(payer, recipient, token, amount).run(true, true, Err(failure)).0 == seq![
            Action::Authenticate,
            Action::Transfer { token, payer, recipient, amount },
            Action::Finish,
        ],
        Donation::start(payer, recipient, token, amount).run(true, true, Err(failure)).1.outcome() == Some(
            Err::<(), DonationError>(DonationError::TransferFailed(failure)),
        ),
{
    let t = Err(failure);
    let d0 = Donation::start(payer, recipient, token, amount);
    let d1 = d0.after(Report::Checked { authorized: true, token_is_contract: true });
    let d2 = d1.after(Report::Transfer(t));
    assert(d2.run(true, true, t).0 == seq![Action::<A>::Finish]);
    assert(d1.run(true, true, t).0 =~= seq![Action::Transfer { token, payer, recipient, amount }, Action::Finish]);
    assert(d0.run(true, true, t).0 =~= seq![
        Action::Authenticate,
        Action::Transfer { token, payer, recipient, amount },
        Action::Finish,
    ]);
}

} // verus!
