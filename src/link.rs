//! The lifecycle of the event subscription: subscribe, receive batches,
//! and after any failure wait a fixed delay and subscribe again, forever.

use vstd::prelude::*;

verus! {

/// The fixed delay before a new subscription attempt, in milliseconds.
pub const RECONNECT_DELAY_MS: u64 = 1000;

#[derive(Clone, Copy, Debug, PartialEq, Eq, Structural)]
pub enum LinkState {
    /// No subscription; waiting for the reconnect delay to pass.
    Disconnected,
    /// A subscription has been requested.
    Connecting,
    /// Batches flow.
    Active,
}

/// What the caller observed after performing the last action.
#[derive(Clone, Copy, Debug, PartialEq, Eq, Structural)]
pub enum LinkSignal {
    Subscribed,
    SubscribeFailed,
    BatchReceived,
    StreamError,
    DelayElapsed,
}

/// What the caller is to do next.
#[derive(Clone, Copy, Debug, PartialEq, Eq, Structural)]
pub enum LinkAction {
    Subscribe,
    Receive,
    Wait { millis: u64 },
}

/// The action that a state asks for.
pub open spec fn pending_spec(s: LinkState) -> LinkAction {
    match s {
        LinkState::Disconnected => LinkAction::Wait { millis: RECONNECT_DELAY_MS },
        LinkState::Connecting => LinkAction::Subscribe,
        LinkState::Active => LinkAction::Receive,
    }
}

/// The state after `sig` is observed in state `s`. A signal that does not
/// belong to the state leaves it as it is.
pub open spec fn next_state_spec(s: LinkState, sig: LinkSignal) -> LinkState {
    match (s, sig) {
        (LinkState::Connecting, LinkSignal::Subscribed) => LinkState::Active,
        (LinkState::Connecting, LinkSignal::SubscribeFailed) => LinkState::Disconnected,
        (LinkState::Active, LinkSignal::BatchReceived) => LinkState::Active,
        (LinkState::Active, LinkSignal::StreamError) => LinkState::Disconnected,
        (LinkState::Disconnected, LinkSignal::DelayElapsed) => LinkState::Connecting,
        _ => s,
    }
}

impl LinkState {
    /// The state a fresh service starts in, together with its first action.
    pub fn start() -> (r: (LinkState, LinkAction))
        ensures
            r.0 == LinkState::Connecting,
            r.1 == pending_spec(r.0),
    {
        (LinkState::Connecting, LinkAction::Subscribe)
    }

    /// The action this state asks for.
    pub fn pending(&self) -> (r: LinkAction)
        ensures
            r == pending_spec(*self),
    {
        match self {
            LinkState::Disconnected => LinkAction::Wait { millis: RECONNECT_DELAY_MS },
            LinkState::Connecting => LinkAction::Subscribe,
            LinkState::Active => LinkAction::Receive,
        }
    }

    /// Moves on after `sig` and returns the action the new state asks for.
    pub fn step(&mut self, sig: LinkSignal) -> (r: LinkAction)
        ensures
            *final(self) == next_state_spec(*old(self), sig),
            r == pending_spec(*final(self)),
    {
        let next = match (*self, sig) {
            (LinkState::Connecting, LinkSignal::Subscribed) => LinkState::Active,
            (LinkState::Connecting, LinkSignal::SubscribeFailed) => LinkState::Disconnected,
            (LinkState::Active, LinkSignal::BatchReceived) => LinkState::Active,
            (LinkState::Active, LinkSignal::StreamError) => LinkState::Disconnected,
            (LinkState::Disconnected, LinkSignal::DelayElapsed) => LinkState::Connecting,
            _ => *self,
        };
        *self = next;
        self.pending()
    }
}

/// The state after a run of signals.
pub open spec fn run_spec(s: LinkState, sigs: Seq<LinkSignal>) -> LinkState
    decreases sigs.len(),
{
    if sigs.len() == 0 {
        s
    } else {
        next_state_spec(run_spec(s, sigs.drop_last()), sigs.last())
    }
}

/// After a stream error on an active subscription the service waits the
/// fixed delay, subscribes again and, once subscribed, receives batches
/// exactly as after its first subscription. The state carries no record of
/// earlier batches, so nothing received before the failure is dealt with
/// again.
pub proof fn lemma_recovers_after_stream_error()
    ensures
        next_state_spec(LinkState::Active, LinkSignal::StreamError) == LinkState::Disconnected,
        pending_spec(LinkState::Disconnected) == (LinkAction::Wait { millis: RECONNECT_DELAY_MS }),
        next_state_spec(LinkState::Disconnected, LinkSignal::DelayElapsed) == LinkState::Connecting,
        pending_spec(LinkState::Connecting) == LinkAction::Subscribe,
        next_state_spec(LinkState::Connecting, LinkSignal::Subscribed) == LinkState::Active,
        run_spec(
            LinkState::Active,
            seq![LinkSignal::StreamError, LinkSignal::DelayElapsed, LinkSignal::Subscribed],
        ) == LinkState::Active,
{
    let sigs = seq![LinkSignal::StreamError, LinkSignal::DelayElapsed, LinkSignal::Subscribed];
    assert(sigs.drop_last().drop_last().drop_last() =~= Seq::<LinkSignal>::empty());
    reveal_with_fuel(run_spec, 4);
}

/// There is no terminal state: from every state a failed subscription
/// attempt, or any number of them, is followed by another one after the
/// fixed delay, and a successful one makes the subscription active.
pub proof fn lemma_retries_forever(s: LinkState)
    ensures
        next_state_spec(LinkState::Connecting, LinkSignal::SubscribeFailed) == LinkState::Disconnected,
        next_state_spec(
            next_state_spec(LinkState::Disconnected, LinkSignal::DelayElapsed),
            LinkSignal::Subscribed,
        ) == LinkState::Active,
        s == LinkState::Active || next_state_spec(
            next_state_spec(s, LinkSignal::DelayElapsed),
            LinkSignal::Subscribed,
        ) == LinkState::Active,
{
}

} // verus!
