//! Application packets and the per-packet relay decision.

use vstd::prelude::*;
use crate::identifier::{ChannelId, PortId};

verus! {

/// A packet in flight between two chains. A sequence is terminal once
/// either a receive acknowledgement or a timeout proof is committed on
/// the sending chain.
pub struct Packet {
    pub sequence: u64,
    pub source_port: PortId,
    pub source_channel: ChannelId,
    pub destination_port: PortId,
    pub destination_channel: ChannelId,
    pub data: Vec<u8>,
    pub timeout_height: u64,
    pub timeout_timestamp: u64,
}

/// The minimal next action for one observed packet.
#[derive(Clone, Copy, Debug, PartialEq, Eq, Structural)]
pub enum PacketAction {
    /// Submit the receive on the destination chain.
    Receive,
    /// Submit a timeout proof on the source chain; terminal for this
    /// sequence.
    Timeout,
    /// The destination already holds a receipt: skip, do not resubmit.
    Skip,
}

/// Whether the packet's timeout has passed on the destination chain,
/// judged against its height and timestamp; a zero bound means "no
/// bound of that kind".
pub open spec fn spec_timed_out(
    timeout_height: u64,
    timeout_timestamp: u64,
    dest_height: u64,
    dest_timestamp: u64,
) -> bool {
    ||| (timeout_height > 0 && dest_height >= timeout_height)
    ||| (timeout_timestamp > 0 && dest_timestamp >= timeout_timestamp)
}

/// Decides what to do with a packet, given the destination chain's
/// current height and timestamp and whether it already holds a
/// receipt for this sequence. A receipt always wins (idempotent
/// re-observation is skipped); otherwise a passed timeout calls for a
/// timeout proof, and only a live packet is received.
pub fn decide_packet_action(p: &Packet, dest_height: u64, dest_timestamp: u64, has_receipt:
    bool) -> (r: PacketAction)
    ensures
        has_receipt ==> r == PacketAction::Skip,
        !has_receipt && spec_timed_out(
            p.timeout_height,
            p.timeout_timestamp,
            dest_height,
            dest_timestamp,
        ) ==> r == PacketAction::Timeout,
        !has_receipt && !spec_timed_out(
            p.timeout_height,
            p.timeout_timestamp,
            dest_height,
            dest_timestamp,
        ) ==> r == PacketAction::Receive,
{
    if has_receipt {
        PacketAction::Skip
    } else if (p.timeout_height > 0 && dest_height >= p.timeout_height) || (p.timeout_timestamp > 0
        && dest_timestamp >= p.timeout_timestamp) {
        PacketAction::Timeout
    } else {
        PacketAction::Receive
    }
}

} // verus!
