//! Stateless handshake drivers.
//!
//! A driver never stores progress of its own: each invocation derives
//! the next applicable step purely from the freshly queried state of
//! both ends, so a crash and restart resumes correctly. A step whose
//! result is already present on both ends is skipped, which prevents
//! duplicate submissions after a partial failure.

use vstd::prelude::*;
use crate::channel::{ChannelEnd, ChannelState, channel_state_index};
use crate::connection::{ConnectionEnd, State, opt_conn_view, state_advances, state_index};
use crate::errors::ChannelError;
use crate::identifier::{ChannelId, ConnectionId};

verus! {

/// Which chain a step must be submitted on.
#[derive(Clone, Copy, Debug, PartialEq, Eq, Structural)]
pub enum HandshakeSide {
    ChainA,
    ChainB,
}

/// The four messages of the connection-open handshake.
#[derive(Clone, Copy, Debug, PartialEq, Eq, Structural)]
pub enum ConnectionStep {
    Init,
    Try,
    Ack,
    Confirm,
}

/// The step the connection handshake calls for next, given the
/// freshly queried states of the two ends; `None` once nothing is
/// left to do.
pub open spec fn spec_next_connection_step(a: State, b: State) -> Option<
    (ConnectionStep, HandshakeSide),
> {
    if a == State::Uninitialized && b == State::Uninitialized {
        Some((ConnectionStep::Init, HandshakeSide::ChainA))
    } else if a == State::Init && b == State::Uninitialized {
        Some((ConnectionStep::Try, HandshakeSide::ChainB))
    } else if a == State::Init && b == State::TryOpen {
        Some((ConnectionStep::Ack, HandshakeSide::ChainA))
    } else if a == State::Open && b == State::TryOpen {
        Some((ConnectionStep::Confirm, HandshakeSide::ChainB))
    } else {
        None
    }
}

/// The state pairs the connection handshake can pass through when it
/// starts from two fresh ends.
pub open spec fn connection_pair_reachable(a: State, b: State) -> bool {
    ||| (a == State::Uninitialized && b == State::Uninitialized)
    ||| (a == State::Init && b == State::Uninitialized)
    ||| (a == State::Init && b == State::TryOpen)
    ||| (a == State::Open && b == State::TryOpen)
    ||| (a == State::Open && b == State::Open)
}

/// The state pair a step leaves behind; a pair that calls for no step
/// is left unchanged.
pub open spec fn spec_apply_connection_step(a: State, b: State) -> (State, State) {
    match spec_next_connection_step(a, b) {
        Some((ConnectionStep::Init, _)) => (State::Init, b),
        Some((ConnectionStep::Try, _)) => (a, State::TryOpen),
        Some((ConnectionStep::Ack, _)) => (State::Open, b),
        Some((ConnectionStep::Confirm, _)) => (a, State::Open),
        None => (a, b),
    }
}

/// Computes the next connection step. Re-invoking the driver on an
/// end that already reached the state a step would produce yields no
/// action for that end: in particular an `Open` end is never asked to
/// act again.
pub fn next_connection_step(a: &ConnectionEnd, b: &ConnectionEnd) -> (r: Option<
    (ConnectionStep, HandshakeSide),
>)
    ensures
        r == spec_next_connection_step(a.state, b.state),
        a.state == State::Open && b.state == State::Open ==> r is None,
        r matches Some(p) ==> (p.1 == HandshakeSide::ChainA ==> a.state != State::Open),
        r matches Some(p) ==> (p.1 == HandshakeSide::ChainB ==> b.state != State::Open),
{
    if a.state == State::Uninitialized && b.state == State::Uninitialized {
        Some((ConnectionStep::Init, HandshakeSide::ChainA))
    } else if a.state == State::Init && b.state == State::Uninitialized {
        Some((ConnectionStep::Try, HandshakeSide::ChainB))
    } else if a.state == State::Init && b.state == State::TryOpen {
        Some((ConnectionStep::Ack, HandshakeSide::ChainA))
    } else if a.state == State::Open && b.state == State::TryOpen {
        Some((ConnectionStep::Confirm, HandshakeSide::ChainB))
    } else {
        None
    }
}

/// Law: every applicable step only moves states forward — never
/// backward — advances the pair strictly, and stays among the
/// reachable pairs.
pub proof fn lemma_connection_step_advances(a: State, b: State)
    requires
        connection_pair_reachable(a, b),
        spec_next_connection_step(a, b) is Some,
    ensures
        state_advances(a, spec_apply_connection_step(a, b).0),
        state_advances(b, spec_apply_connection_step(a, b).1),
        state_index(spec_apply_connection_step(a, b).0) + state_index(
            spec_apply_connection_step(a, b).1,
        ) > state_index(a) + state_index(b),
        connection_pair_reachable(
            spec_apply_connection_step(a, b).0,
            spec_apply_connection_step(a, b).1,
        ),
{
}

/// Law: when no step applies to a reachable pair, the handshake is
/// complete — both ends are `Open`.
pub proof fn lemma_connection_stall_means_open(a: State, b: State)
    requires
        connection_pair_reachable(a, b),
        spec_next_connection_step(a, b) is None,
    ensures
        a == State::Open && b == State::Open,
{
}

/// Drives the connection handshake from two fresh ends to completion:
/// it always terminates with both ends `Open`, each end having
/// learned the other's connection identifier, and client identifiers
/// and versions untouched.
pub fn run_connection_handshake(
    a: ConnectionEnd,
    b: ConnectionEnd,
    a_conn_id: &ConnectionId,
    b_conn_id: &ConnectionId,
) -> (r: (ConnectionEnd, ConnectionEnd))
    requires
        a.state == State::Uninitialized,
        b.state == State::Uninitialized,
        a.wf(),
        b.wf(),
        a_conn_id.wf(),
        b_conn_id.wf(),
    ensures
        r.0.state == State::Open,
        r.1.state == State::Open,
        r.0.wf(),
        r.1.wf(),
        r.0.client_id == a.client_id,
        r.1.client_id == b.client_id,
        r.0.versions == a.versions,
        r.1.versions == b.versions,
        opt_conn_view(r.0.counterparty.connection_id) == Some(b_conn_id@),
        opt_conn_view(r.1.counterparty.connection_id) == Some(a_conn_id@),
{
    let mut ca = a;
    let mut cb = b;
    let mut step = next_connection_step(&ca, &cb);
    while step.is_some()
        invariant
            step == spec_next_connection_step(ca.state, cb.state),
            connection_pair_reachable(ca.state, cb.state),
            ca.wf(),
            cb.wf(),
            a_conn_id.wf(),
            b_conn_id.wf(),
            ca.client_id == a.client_id,
            cb.client_id == b.client_id,
            ca.versions == a.versions,
            cb.versions == b.versions,
            state_index(cb.state) >= 2 ==> opt_conn_view(cb.counterparty.connection_id) == Some(
                a_conn_id@,
            ),
            state_index(ca.state) >= 3 ==> opt_conn_view(ca.counterparty.connection_id) == Some(
                b_conn_id@,
            ),
        decreases 6 - state_index(ca.state) - state_index(cb.state),
    {
        match step.unwrap() {
            (ConnectionStep::Init, _) => {
                ca.set_state(State::Init);
            },
            (ConnectionStep::Try, _) => {
                cb.set_counterparty_connection_id(a_conn_id.dup());
                cb.set_state(State::TryOpen);
            },
            (ConnectionStep::Ack, _) => {
                ca.set_counterparty_connection_id(b_conn_id.dup());
                ca.set_state(State::Open);
            },
            (ConnectionStep::Confirm, _) => {
                cb.set_state(State::Open);
            },
        }
        step = next_connection_step(&ca, &cb);
    }
    (ca, cb)
}

/// The four messages of the channel-open handshake.
#[derive(Clone, Copy, Debug, PartialEq, Eq, Structural)]
pub enum ChannelStep {
    Init,
    Try,
    Ack,
    Confirm,
}

/// The step the channel handshake calls for next, ordering aside;
/// `None` once nothing is left to do.
pub open spec fn spec_next_channel_step(a: ChannelState, b: ChannelState) -> Option<
    (ChannelStep, HandshakeSide),
> {
    if a == ChannelState::Uninitialized && b == ChannelState::Uninitialized {
        Some((ChannelStep::Init, HandshakeSide::ChainA))
    } else if a == ChannelState::Init && b == ChannelState::Uninitialized {
        Some((ChannelStep::Try, HandshakeSide::ChainB))
    } else if a == ChannelState::Init && b == ChannelState::TryOpen {
        Some((ChannelStep::Ack, HandshakeSide::ChainA))
    } else if a == ChannelState::Open && b == ChannelState::TryOpen {
        Some((ChannelStep::Confirm, HandshakeSide::ChainB))
    } else {
        None
    }
}

/// The channel-state pairs reachable from two fresh ends.
pub open spec fn channel_pair_reachable(a: ChannelState, b: ChannelState) -> bool {
    ||| (a == ChannelState::Uninitialized && b == ChannelState::Uninitialized)
    ||| (a == ChannelState::Init && b == ChannelState::Uninitialized)
    ||| (a == ChannelState::Init && b == ChannelState::TryOpen)
    ||| (a == ChannelState::Open && b == ChannelState::TryOpen)
    ||| (a == ChannelState::Open && b == ChannelState::Open)
}

/// Computes the next channel step. The ordering modes of the two ends
/// must agree by the time `Confirm` would be submitted; otherwise the
/// handshake fails with `OrderingMismatch`.
pub fn next_channel_step(a: &ChannelEnd, b: &ChannelEnd) -> (r: Result<
    Option<(ChannelStep, HandshakeSide)>,
    ChannelError,
>)
    ensures
        (a.state == ChannelState::Open && b.state == ChannelState::TryOpen && a.ordering
            != b.ordering) <==> r == Result::<
            Option<(ChannelStep, HandshakeSide)>,
            ChannelError,
        >::Err(ChannelError::OrderingMismatch),
        !(a.state == ChannelState::Open && b.state == ChannelState::TryOpen && a.ordering
            != b.ordering) ==> r == Result::<
            Option<(ChannelStep, HandshakeSide)>,
            ChannelError,
        >::Ok(spec_next_channel_step(a.state, b.state)),
{
    if a.state == ChannelState::Open && b.state == ChannelState::TryOpen && a.ordering
        != b.ordering {
        return Err(ChannelError::OrderingMismatch);
    }
    if a.state == ChannelState::Uninitialized && b.state == ChannelState::Uninitialized {
        Ok(Some((ChannelStep::Init, HandshakeSide::ChainA)))
    } else if a.state == ChannelState::Init && b.state == ChannelState::Uninitialized {
        Ok(Some((ChannelStep::Try, HandshakeSide::ChainB)))
    } else if a.state == ChannelState::Init && b.state == ChannelState::TryOpen {
        Ok(Some((ChannelStep::Ack, HandshakeSide::ChainA)))
    } else if a.state == ChannelState::Open && b.state == ChannelState::TryOpen {
        Ok(Some((ChannelStep::Confirm, HandshakeSide::ChainB)))
    } else {
        Ok(None)
    }
}

/// Drives the channel handshake from two fresh ends. With agreeing
/// ordering modes it terminates with both ends `Open`; with differing
/// modes it fails with `OrderingMismatch`. Ordering modes themselves
/// are never altered.
pub fn run_channel_handshake(a: ChannelEnd, b: ChannelEnd, a_chan_id: &ChannelId, b_chan_id:
    &ChannelId) -> (r: Result<(ChannelEnd, ChannelEnd), ChannelError>)
    requires
        a.state == ChannelState::Uninitialized,
        b.state == ChannelState::Uninitialized,
        a.wf(),
        b.wf(),
        a_chan_id.wf(),
        b_chan_id.wf(),
    ensures
        a.ordering == b.ordering <==> r is Ok,
        a.ordering != b.ordering ==> r == Result::<(ChannelEnd, ChannelEnd), ChannelError>::Err(
            ChannelError::OrderingMismatch,
        ),
        r matches Ok(ends) ==> {
            &&& ends.0.state == ChannelState::Open
            &&& ends.1.state == ChannelState::Open
            &&& ends.0.wf()
            &&& ends.1.wf()
            &&& ends.0.ordering == a.ordering
            &&& ends.1.ordering == b.ordering
            &&& crate::channel::opt_chan_view(ends.0.counterparty_channel_id) == Some(b_chan_id@)
            &&& crate::channel::opt_chan_view(ends.1.counterparty_channel_id) == Some(a_chan_id@)
        },
{
    let mut ca = a;
    let mut cb = b;
    loop
        invariant
            channel_pair_reachable(ca.state, cb.state),
            ca.wf(),
            cb.wf(),
            a_chan_id.wf(),
            b_chan_id.wf(),
            ca.ordering == a.ordering,
            cb.ordering == b.ordering,
            channel_state_index(cb.state) >= 2 ==> crate::channel::opt_chan_view(
                cb.counterparty_channel_id,
            ) == Some(a_chan_id@),
            channel_state_index(ca.state) >= 3 ==> crate::channel::opt_chan_view(
                ca.counterparty_channel_id,
            ) == Some(b_chan_id@),
            channel_state_index(cb.state) >= 2 ==> cb.ordering == ca.ordering,
        ensures
            ca.state == ChannelState::Open,
            cb.state == ChannelState::Open,
            ca.wf(),
            cb.wf(),
            ca.ordering == a.ordering,
            cb.ordering == b.ordering,
            a.ordering == b.ordering,
            crate::channel::opt_chan_view(ca.counterparty_channel_id) == Some(b_chan_id@),
            crate::channel::opt_chan_view(cb.counterparty_channel_id) == Some(a_chan_id@),
        decreases 8 - channel_state_index(ca.state) - channel_state_index(cb.state),
    {
        let step = match next_channel_step(&ca, &cb) {
            Ok(s) => s,
            Err(e) => {
                return Err(e);
            },
        };
        match step {
            None => {
                break ;
            },
            Some((ChannelStep::Init, _)) => {
                ca.set_state(ChannelState::Init);
            },
            Some((ChannelStep::Try, _)) => {
                if cb.ordering != ca.ordering {
                    return Err(ChannelError::OrderingMismatch);
                }
                cb.set_counterparty_channel_id(a_chan_id.dup());
                cb.set_state(ChannelState::TryOpen);
            },
            Some((ChannelStep::Ack, _)) => {
                ca.set_counterparty_channel_id(b_chan_id.dup());
                ca.set_state(ChannelState::Open);
            },
            Some((ChannelStep::Confirm, _)) => {
                cb.set_state(ChannelState::Open);
            },
        }
    }
    Ok((ca, cb))
}

} // verus!
