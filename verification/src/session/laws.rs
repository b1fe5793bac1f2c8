//! What holds of every sequence of re-bindings.

use crate::device::DeviceView;
use crate::session::{
    after_acquisition, after_lookup, teardown_of, unbound, Acquisition, PlatformError,
    SessionView, Teardown,
};
use vstd::prelude::*;

verus! {

/// What the platform answered in one round of re-binding: to the query for
/// the default device, and to the attempt to acquire its volume control. The
/// attempt is only made where a device was bound.
pub ghost struct Round {
    pub lookup: Result<DeviceView, PlatformError>,
    pub acquisition: Acquisition,
}

/// Whether the shell attempts to acquire a volume control in this round.
pub open spec fn attempts(round: Round) -> bool {
    after_lookup(round.lookup).device is Some
}

/// The session after one round: unbound, the device bound as looked up, and
/// the control as acquired where a device was bound.
pub open spec fn rebound(round: Round) -> SessionView {
    if attempts(round) {
        after_acquisition(after_lookup(round.lookup), round.acquisition)
    } else {
        after_lookup(round.lookup)
    }
}

/// The subscriptions to volume changes that a session accounts for.
pub open spec fn subscriptions(s: SessionView) -> int {
    if s.control {
        1
    } else {
        0
    }
}

/// The subscriptions that stand at the platform once the shell has carried
/// out a teardown.
pub open spec fn after_teardown(standing: int, teardown: Teardown) -> int {
    if teardown.unsubscribe {
        standing - 1
    } else {
        standing
    }
}

/// The subscriptions that stand at the platform once the shell has tried to
/// acquire a control.
pub open spec fn after_attempt(standing: int, acquisition: Acquisition) -> int {
    if acquisition is Subscribed {
        standing + 1
    } else {
        standing
    }
}

/// The subscriptions that stand at the platform at the end of one round that
/// began with `standing` of them and with the session `s`.
pub open spec fn after_round(standing: int, s: SessionView, round: Round) -> int {
    let cleared = after_teardown(standing, teardown_of(s));
    if attempts(round) {
        after_attempt(cleared, round.acquisition)
    } else {
        cleared
    }
}

/// The session after the rounds, taken in order.
pub open spec fn session_after(s: SessionView, rounds: Seq<Round>) -> SessionView
    decreases rounds.len(),
{
    if rounds.len() == 0 {
        s
    } else {
        session_after(rebound(rounds[0]), rounds.skip(1))
    }
}

/// The subscriptions that stand at the platform after the rounds.
pub open spec fn standing_after(standing: int, s: SessionView, rounds: Seq<Round>) -> int
    decreases rounds.len(),
{
    if rounds.len() == 0 {
        standing
    } else {
        standing_after(after_round(standing, s, rounds[0]), rebound(rounds[0]), rounds.skip(1))
    }
}

/// That at no point of the rounds more than one subscription stands: none
/// once a round's teardown is done, and at the end of each round one exactly
/// when the session then holds a control, else none.
pub open spec fn never_doubled(standing: int, s: SessionView, rounds: Seq<Round>) -> bool
    decreases rounds.len(),
{
    if rounds.len() == 0 {
        true
    } else {
        let cleared = after_teardown(standing, teardown_of(s));
        let next = after_round(standing, s, rounds[0]);
        &&& cleared == 0
        &&& next == subscriptions(rebound(rounds[0]))
        &&& 0 <= next <= 1
        &&& never_doubled(next, rebound(rounds[0]), rounds.skip(1))
    }
}

/// Re-binding never subscribes twice. Start from a session whose account of
/// its subscription is true of the platform. Then through any number of
/// rounds, with whatever the platform answers, no more than one subscription
/// ever stands, and after the last round one stands exactly when the session
/// holds a control.
pub proof fn lemma_rebinding_never_doubles(standing: int, s: SessionView, rounds: Seq<Round>)
    requires
        standing == subscriptions(s),
    ensures
        never_doubled(standing, s, rounds),
        standing_after(standing, s, rounds) == subscriptions(session_after(s, rounds)),
        0 <= standing_after(standing, s, rounds) <= 1,
    decreases rounds.len(),
{
    if rounds.len() > 0 {
        let next = after_round(standing, s, rounds[0]);
        lemma_rebinding_never_doubles(next, rebound(rounds[0]), rounds.skip(1));
    }
}

/// A round in which the platform hands out a device and a subscribed control
/// ends with exactly one subscription, whatever stood before.
pub proof fn lemma_successful_round_leaves_one(standing: int, s: SessionView, round: Round)
    requires
        standing == subscriptions(s),
        round.lookup is Ok,
        round.acquisition is Subscribed,
    ensures
        after_round(standing, s, round) == 1,
        rebound(round).control,
{
}

/// Unbinding twice is unbinding once: the second teardown undoes nothing.
pub proof fn lemma_unbind_is_idempotent(s: SessionView)
    ensures
        teardown_of(unbound()) == (Teardown {
            unsubscribe: false,
            release_control: false,
            release_device: false,
        }),
        after_teardown(after_teardown(subscriptions(s), teardown_of(s)), teardown_of(unbound()))
            == 0,
{
}

} // verus!
