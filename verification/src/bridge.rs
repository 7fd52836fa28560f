//! The asynchronous bridge: a promise that the engine sees, settled by work that runs
//! elsewhere.
//!
//! A [`PendingCall`] stands for one promise. The work reports its completion through a
//! channel; the owner of the engine hands each completion that it receives to
//! [`PendingCall::settle`] and does to the promise what it is told. However many
//! completions arrive, the promise is settled once.

use vstd::prelude::*;
use vstd::string::*;

verus! {

/// The state of a promise.
#[derive(Debug, Clone, PartialEq, Eq)]
pub enum Settlement {
    Pending,
    /// Resolved with a payload.
    Resolved(String),
    /// Rejected with the text of the error.
    Rejected(String),
}

/// The mathematical content of a [`Settlement`].
pub enum SettlementView {
    Pending,
    Resolved(Seq<char>),
    Rejected(Seq<char>),
}

impl View for Settlement {
    type V = SettlementView;

    open spec fn view(&self) -> SettlementView {
        match self {
            Settlement::Pending => SettlementView::Pending,
            Settlement::Resolved(payload) => SettlementView::Resolved(payload@),
            Settlement::Rejected(error) => SettlementView::Rejected(error@),
        }
    }
}

/// What is to be done to the promise.
#[derive(Debug, Clone, PartialEq, Eq)]
pub enum BridgeAction {
    /// Resolve the promise with the payload.
    Resolve(String),
    /// Reject the promise with the text of the error.
    Reject(String),
    /// Leave the promise alone: it is settled already.
    Nothing,
}

/// The mathematical content of a [`BridgeAction`].
pub enum BridgeActionView {
    Resolve(Seq<char>),
    Reject(Seq<char>),
    Nothing,
}

impl View for BridgeAction {
    type V = BridgeActionView;

    open spec fn view(&self) -> BridgeActionView {
        match self {
            BridgeAction::Resolve(payload) => BridgeActionView::Resolve(payload@),
            BridgeAction::Reject(error) => BridgeActionView::Reject(error@),
            BridgeAction::Nothing => BridgeActionView::Nothing,
        }
    }
}

/// The contents of a completion: the payload of the work, or the text of its error.
pub open spec fn completion_view(completion: Result<String, String>) -> Result<
    Seq<char>,
    Seq<char>,
> {
    match completion {
        Ok(payload) => Ok(payload@),
        Err(error) => Err(error@),
    }
}

/// The state of a promise after a completion arrives, and what is done to the promise.
/// A pending promise is resolved with the payload or rejected with the error's own text;
/// a settled promise stays as it is.
pub open spec fn settled(state: SettlementView, completion: Result<Seq<char>, Seq<char>>) -> (
    SettlementView,
    BridgeActionView,
) {
    match state {
        SettlementView::Pending => match completion {
            Ok(payload) => (SettlementView::Resolved(payload), BridgeActionView::Resolve(payload)),
            Err(error) => (SettlementView::Rejected(error), BridgeActionView::Reject(error)),
        },
        _ => (state, BridgeActionView::Nothing),
    }
}

/// The state of a promise after the first `n` of the given completions have arrived.
pub open spec fn state_after(
    state: SettlementView,
    completions: Seq<Result<Seq<char>, Seq<char>>>,
    n: int,
) -> SettlementView
    decreases n,
{
    if n <= 0 {
        state
    } else {
        settled(state_after(state, completions, n - 1), completions[n - 1]).0
    }
}

/// How many of the first `n` completions made the promise change its state.
pub open spec fn transitions(
    state: SettlementView,
    completions: Seq<Result<Seq<char>, Seq<char>>>,
    n: int,
) -> nat
    decreases n,
{
    if n <= 0 {
        0
    } else {
        let before = state_after(state, completions, n - 1);
        let counted = transitions(state, completions, n - 1);
        if settled(before, completions[n - 1]).1 == BridgeActionView::Nothing {
            counted
        } else {
            counted + 1
        }
    }
}

/// One asynchronous operation in flight: the promise that the engine sees and its state.
#[derive(Debug, Clone, PartialEq, Eq)]
pub struct PendingCall {
    promise: u64,
    state: Settlement,
}

impl PendingCall {
    /// The handle of the promise.
    pub closed spec fn promise(&self) -> u64 {
        self.promise
    }

    /// The state of the promise.
    pub closed spec fn settlement(&self) -> SettlementView {
        self.state@
    }

    /// A call whose promise is pending.
    pub fn new(promise: u64) -> (call: PendingCall)
        ensures
            call.promise() == promise,
            call.settlement() == SettlementView::Pending,
    {
        PendingCall { promise, state: Settlement::Pending }
    }

    /// The handle of the promise.
    pub fn promise_handle(&self) -> (promise: u64)
        ensures
            promise == self.promise(),
    {
        self.promise
    }

    /// Whether the promise has been resolved or rejected.
    pub fn is_settled(&self) -> (done: bool)
        ensures
            done == (self.settlement() != SettlementView::Pending),
    {
        match &self.state {
            Settlement::Pending => false,
            _ => true,
        }
    }

    /// The state of the promise.
    pub fn current(&self) -> (state: Settlement)
        ensures
            state@ == self.settlement(),
    {
        match &self.state {
            Settlement::Pending => Settlement::Pending,
            Settlement::Resolved(payload) => Settlement::Resolved(payload.clone()),
            Settlement::Rejected(error) => Settlement::Rejected(error.clone()),
        }
    }

    /// Takes note of a completion and says what is to be done to the promise.
    pub fn settle(&mut self, completion: Result<String, String>) -> (action: BridgeAction)
        ensures
            final(self).promise() == old(self).promise(),
            (final(self).settlement(), action@) == settled(
                old(self).settlement(),
                completion_view(completion),
            ),
    {
        match &self.state {
            Settlement::Pending => match completion {
                Ok(payload) => {
                    self.state = Settlement::Resolved(payload.clone());
                    BridgeAction::Resolve(payload)
                },
                Err(error) => {
                    self.state = Settlement::Rejected(error.clone());
                    BridgeAction::Reject(error)
                },
            },
            _ => BridgeAction::Nothing,
        }
    }
}

/// Once settled, a promise keeps its state whatever arrives.
pub proof fn lemma_settled_stays(
    state: SettlementView,
    completions: Seq<Result<Seq<char>, Seq<char>>>,
    n: int,
)
    requires
        state != SettlementView::Pending,
    ensures
        state_after(state, completions, n) == state,
        transitions(state, completions, n) == 0,
    decreases n,
{
    if n > 0 {
        lemma_settled_stays(state, completions, n - 1);
    }
}

/// A promise is settled at most once, and exactly once where at least one completion
/// arrives: of the completions that reach a pending promise, the first settles it (it
/// resolves with a payload, rejects with an error's own text) and none of the others
/// changes it.
pub proof fn law_settled_exactly_once(completions: Seq<Result<Seq<char>, Seq<char>>>, n: int)
    requires
        0 <= n <= completions.len(),
    ensures
        transitions(SettlementView::Pending, completions, n) <= 1,
        n == 0 ==> transitions(SettlementView::Pending, completions, n) == 0 && state_after(
            SettlementView::Pending,
            completions,
            n,
        ) == SettlementView::Pending,
        n >= 1 ==> transitions(SettlementView::Pending, completions, n) == 1 && state_after(
            SettlementView::Pending,
            completions,
            n,
        ) == settled(SettlementView::Pending, completions[0]).0,
    decreases n,
{
    if n >= 1 {
        law_settled_exactly_once(completions, n - 1);
    }
}

/// The text of the error of a request that could not be made.
pub open spec fn fetch_failure(cause: Seq<char>) -> Seq<char> {
    "Failed to fetch: "@ + cause
}

/// Describes a request that could not be made, by its cause.
pub fn fetch_failure_message(cause: &str) -> (text: String)
    ensures
        text@ == fetch_failure(cause@),
{
    String::from_str("Failed to fetch: ").concat(cause)
}

} // verus!
