use relayer_core::channel::{ChannelBinding, ChannelEnd, ChannelState, find_channel, Order};
use relayer_core::connection::{ConnectionEnd, Counterparty, State};
use relayer_core::errors::ChannelError;
use relayer_core::handshake::{
    next_connection_step, run_channel_handshake, run_connection_handshake,
};
use relayer_core::identifier::{ChannelId, ClientId, CommitmentPrefix, ConnectionId, PortId};

fn fresh_end(local_client: &str, remote_client: &str) -> ConnectionEnd {
    let client = ClientId::new(local_client.to_string()).unwrap();
    let cp = Counterparty::new(
        remote_client.to_string(),
        None,
        CommitmentPrefix::new(b"ibc".to_vec()),
    )
    .unwrap();
    ConnectionEnd::new(client, cp, vec!["1".to_string()]).unwrap()
}

#[test]
fn connection_handshake_reaches_open_on_both_ends() {
    let a = fresh_end("client-on-a", "client-on-b");
    let b = fresh_end("client-on-b", "client-on-a");
    let a_id = ConnectionId::new("connection-0".to_string()).unwrap();
    let b_id = ConnectionId::new("connection-1".to_string()).unwrap();
    let (a, b) = run_connection_handshake(a, b, &a_id, &b_id);
    assert_eq!(*a.state(), State::Open);
    assert_eq!(*b.state(), State::Open);
    assert_eq!(a.counterparty().connection_id().as_deref(), Some("connection-1"));
    assert_eq!(b.counterparty().connection_id().as_deref(), Some("connection-0"));
}

#[test]
fn completed_connection_yields_no_further_step() {
    let a = fresh_end("client-on-a", "client-on-b");
    let b = fresh_end("client-on-b", "client-on-a");
    let a_id = ConnectionId::new("connection-0".to_string()).unwrap();
    let b_id = ConnectionId::new("connection-1".to_string()).unwrap();
    let (a, b) = run_connection_handshake(a, b, &a_id, &b_id);
    // Re-invoking the driver on finished ends is a no-op, not a
    // duplicate submission.
    assert!(next_connection_step(&a, &b).is_none());
}

#[test]
fn channel_handshake_reaches_open_with_matching_ordering() {
    let a = ChannelEnd::new(Order::Unordered);
    let b = ChannelEnd::new(Order::Unordered);
    let a_id = ChannelId::new("channel-0".to_string()).unwrap();
    let b_id = ChannelId::new("channel-1".to_string()).unwrap();
    let (a, b) = run_channel_handshake(a, b, &a_id, &b_id).unwrap();
    assert_eq!(a.state, ChannelState::Open);
    assert_eq!(b.state, ChannelState::Open);
    assert_eq!(a.ordering, Order::Unordered);
    assert_eq!(b.ordering, Order::Unordered);
}

#[test]
fn channel_handshake_fails_on_ordering_mismatch() {
    let a = ChannelEnd::new(Order::Ordered);
    let b = ChannelEnd::new(Order::Unordered);
    let a_id = ChannelId::new("channel-0".to_string()).unwrap();
    let b_id = ChannelId::new("channel-1".to_string()).unwrap();
    assert_eq!(
        run_channel_handshake(a, b, &a_id, &b_id).unwrap_err(),
        ChannelError::OrderingMismatch
    );
}

#[test]
fn mismatched_port_binding_is_channel_not_found() {
    let binding = ChannelBinding {
        port_id: PortId::new("transfer".to_string()).unwrap(),
        channel_id: ChannelId::new("channel-0".to_string()).unwrap(),
        end: ChannelEnd::new(Order::Unordered),
    };
    let chans = vec![binding];
    let right_port = PortId::new("transfer".to_string()).unwrap();
    let wrong_port = PortId::new("oracle".to_string()).unwrap();
    let chan = ChannelId::new("channel-0".to_string()).unwrap();
    assert_eq!(find_channel(&chans, &right_port, &chan).unwrap(), 0);
    assert_eq!(
        find_channel(&chans, &wrong_port, &chan).unwrap_err(),
        ChannelError::ChannelNotFound
    );
}
