//! Channel ends: the four-step lifecycle scoped to an open
//! connection, with an ordering mode fixed at creation.

use vstd::prelude::*;
use crate::errors::ChannelError;
use crate::identifier::{ChannelId, PortId};

verus! {

/// Lifecycle stage of a channel end.
#[derive(Clone, Copy, Debug, PartialEq, Eq, Structural)]
pub enum ChannelState {
    Uninitialized,
    Init,
    TryOpen,
    Open,
    Closed,
}

/// Whether packets on the channel must be received in sequence order.
#[derive(Clone, Copy, Debug, PartialEq, Eq, Structural)]
pub enum Order {
    Ordered,
    Unordered,
}

/// Position of a state in the lifecycle.
pub open spec fn channel_state_index(s: ChannelState) -> int {
    match s {
        ChannelState::Uninitialized => 0,
        ChannelState::Init => 1,
        ChannelState::TryOpen => 2,
        ChannelState::Open => 3,
        ChannelState::Closed => 4,
    }
}

/// A transition never moves backward in the lifecycle.
pub open spec fn channel_state_advances(from: ChannelState, to: ChannelState) -> bool {
    channel_state_index(from) <= channel_state_index(to)
}

/// The local half of a channel. The ordering mode is fixed at
/// creation and no operation ever changes it.
#[derive(Debug)]
pub struct ChannelEnd {
    pub state: ChannelState,
    pub ordering: Order,
    pub counterparty_channel_id: Option<ChannelId>,
}

/// The optional channel identifier of a counterparty, as a view.
pub open spec fn opt_chan_view(o: Option<ChannelId>) -> Option<Seq<char>> {
    match o {
        Some(c) => Some(c@),
        None => None,
    }
}

impl ChannelEnd {
    /// Well-formedness: an end past `TryOpen` knows which remote
    /// channel it speaks to.
    pub open spec fn wf(&self) -> bool {
        &&& (self.counterparty_channel_id matches Some(c) ==> c.wf())
        &&& (self.state == ChannelState::Open ==> self.counterparty_channel_id is Some)
    }

    /// Creates the end in `Uninitialized` state with its (permanent)
    /// ordering mode.
    pub fn new(ordering: Order) -> (r: ChannelEnd)
        ensures
            r.state == ChannelState::Uninitialized,
            r.ordering == ordering,
            r.counterparty_channel_id is None,
            r.wf(),
    {
        ChannelEnd { state: ChannelState::Uninitialized, ordering, counterparty_channel_id: None }
    }

    /// Advances the lifecycle state; the state never moves backward,
    /// the ordering never changes, and `Open` demands a known
    /// counterparty channel.
    pub fn set_state(&mut self, new_state: ChannelState)
        requires
            channel_state_advances(old(self).state, new_state),
            new_state == ChannelState::Open ==> old(self).counterparty_channel_id is Some,
        ensures
            final(self).state == new_state,
            final(self).ordering == old(self).ordering,
            final(self).counterparty_channel_id == old(self).counterparty_channel_id,
            old(self).wf() ==> final(self).wf(),
    {
        self.state = new_state;
    }

    /// Records the counterparty channel identifier once the remote
    /// chain has committed to one.
    pub fn set_counterparty_channel_id(&mut self, id: ChannelId)
        ensures
            final(self).state == old(self).state,
            final(self).ordering == old(self).ordering,
            final(self).counterparty_channel_id == Some(id),
            old(self).wf() && id.wf() ==> final(self).wf(),
    {
        self.counterparty_channel_id = Some(id);
    }
}

/// A channel as a chain stores it: bound to a port under a local
/// identifier.
#[derive(Debug)]
pub struct ChannelBinding {
    pub port_id: PortId,
    pub channel_id: ChannelId,
    pub end: ChannelEnd,
}

/// Looks a channel up by its port binding and identifier; a
/// mismatched binding is reported as `ChannelNotFound`. Returns the
/// first matching position.
pub fn find_channel(chans: &Vec<ChannelBinding>, port: &PortId, channel: &ChannelId) -> (r: Result<
    usize,
    ChannelError,
>)
    ensures
        r matches Ok(i) ==> {
            &&& 0 <= i < chans@.len()
            &&& chans@[i as int].port_id@ == port@
            &&& chans@[i as int].channel_id@ == channel@
            &&& forall|j: int|
                0 <= j < i ==> !(chans@[j].port_id@ == port@ && chans@[j].channel_id@ == channel@)
        },
        r is Err <==> (forall|j: int|
            0 <= j < chans@.len() ==> !(chans@[j].port_id@ == port@ && chans@[j].channel_id@
                == channel@)),
        r is Err ==> r == Result::<usize, ChannelError>::Err(ChannelError::ChannelNotFound),
{
    for i in 0..chans.len()
        invariant
            forall|j: int|
                0 <= j < i ==> !(chans@[j].port_id@ == port@ && chans@[j].channel_id@ == channel@),
    {
        if chans[i].port_id.eq_id(port) && chans[i].channel_id.eq_id(channel) {
            return Ok(i);
        }
    }
    Err(ChannelError::ChannelNotFound)
}

} // verus!
