use relayer_core::bootstrap::{wait_wallet_amount_step, WaitOutcome};
use relayer_core::client::{apply_client_update, create_client, ClientStateInfo};
use relayer_core::errors::{ClientError, RoutingError};
use relayer_core::identifier::{ChannelId, PortId};
use relayer_core::packet::{decide_packet_action, Packet, PacketAction};
use relayer_core::routing::{route, Ics26Envelope, ModuleId, MsgTransfer, RouterConfig};
use relayer_core::worker::{PacketWorker, RetryPolicy};

fn packet(sequence: u64, timeout_height: u64, timeout_timestamp: u64) -> Packet {
    Packet {
        sequence,
        source_port: PortId::new("transfer".to_string()).unwrap(),
        source_channel: ChannelId::new("channel-0".to_string()).unwrap(),
        destination_port: PortId::new("transfer".to_string()).unwrap(),
        destination_channel: ChannelId::new("channel-1".to_string()).unwrap(),
        data: vec![1, 2, 3],
        timeout_height,
        timeout_timestamp,
    }
}

#[test]
fn out_of_order_events_are_relayed_in_sequence_order() {
    let mut worker = PacketWorker::new(1);
    let mut submitted: Vec<u64> = Vec::new();
    for seq in [3u64, 1, 2] {
        submitted.extend(worker.on_packet_event(seq));
    }
    assert_eq!(submitted, vec![1, 2, 3]);
}

#[test]
fn duplicate_events_are_not_resubmitted() {
    let mut worker = PacketWorker::new(1);
    assert_eq!(worker.on_packet_event(1), vec![1]);
    // Re-observing an already-relayed packet is skipped.
    assert_eq!(worker.on_packet_event(1), Vec::<u64>::new());
    assert_eq!(worker.on_packet_event(2), vec![2]);
}

#[test]
fn timed_out_sequence_is_never_received_afterwards() {
    let mut worker = PacketWorker::new(5);
    worker.on_timeout(5);
    // The timed-out sequence is resolved without a receive; later
    // sequences still flow.
    assert_eq!(worker.on_packet_event(5), Vec::<u64>::new());
    assert_eq!(worker.on_packet_event(6), vec![6]);
}

#[test]
fn acknowledged_sequence_is_terminal_too() {
    let mut worker = PacketWorker::new(2);
    worker.on_ack(2);
    assert_eq!(worker.on_packet_event(2), Vec::<u64>::new());
    assert_eq!(worker.on_packet_event(3), vec![3]);
}

#[test]
fn packet_decision_prefers_receipt_then_timeout() {
    let live = packet(1, 100, 0);
    assert_eq!(decide_packet_action(&live, 50, 0, false), PacketAction::Receive);
    assert_eq!(decide_packet_action(&live, 50, 0, true), PacketAction::Skip);
    assert_eq!(decide_packet_action(&live, 100, 0, false), PacketAction::Timeout);
    let timestamped = packet(2, 0, 1_000);
    assert_eq!(decide_packet_action(&timestamped, 0, 999, false), PacketAction::Receive);
    assert_eq!(decide_packet_action(&timestamped, 0, 1_000, false), PacketAction::Timeout);
}

#[test]
fn backoff_doubles_and_saturates() {
    let policy = RetryPolicy { max_attempts: 5, base_delay_ms: 100 };
    assert_eq!(policy.backoff_delay(0), 100);
    assert_eq!(policy.backoff_delay(1), 200);
    assert_eq!(policy.backoff_delay(3), 800);
    assert_eq!(policy.backoff_delay(63), u64::MAX);
    assert!(policy.should_retry(4));
    assert!(!policy.should_retry(5));
}

#[test]
fn waiting_for_a_wallet_amount_is_a_bounded_retry() {
    assert_eq!(wait_wallet_amount_step(0, Some(10), 10), WaitOutcome::GiveUp);
    assert_eq!(wait_wallet_amount_step(3, Some(10), 10), WaitOutcome::Satisfied);
    assert_eq!(wait_wallet_amount_step(3, Some(7), 10), WaitOutcome::Retry);
    assert_eq!(wait_wallet_amount_step(3, None, 10), WaitOutcome::Retry);
}

#[test]
fn envelopes_route_to_their_module_or_are_rejected() {
    let env = Ics26Envelope::Ics20Msg(MsgTransfer {
        source_port: PortId::new("transfer".to_string()).unwrap(),
        source_channel: ChannelId::new("channel-0".to_string()).unwrap(),
        denom: "samoleans".to_string(),
        amount: 1,
        receiver: "user-b".to_string(),
        timeout_height: 100,
    });
    let all = RouterConfig {
        client_enabled: true,
        connection_enabled: true,
        channel_enabled: true,
        transfer_enabled: true,
    };
    assert_eq!(route(&env, &all).unwrap(), ModuleId::Transfer);
    let without_transfer = RouterConfig { transfer_enabled: false, ..all };
    assert_eq!(
        route(&env, &without_transfer).unwrap_err(),
        RoutingError::UnroutableMessage
    );
}

#[test]
fn client_updates_are_idempotent_and_guarded() {
    assert_eq!(create_client(7, false).unwrap_err(), ClientError::ClientCreationFailed);
    let mut client = create_client(10, true).unwrap();
    // A header at or below the trusted height is a no-op, not an error.
    assert_eq!(apply_client_update(&mut client, 10, true).unwrap(), false);
    assert_eq!(client.trusted_height, 10);
    // A fresh, trusted header moves the client forward.
    assert_eq!(apply_client_update(&mut client, 15, true).unwrap(), true);
    assert_eq!(client.trusted_height, 15);
    // An untrusted fresh header is surfaced, not retried.
    assert_eq!(
        apply_client_update(&mut client, 20, false).unwrap_err(),
        ClientError::UntrustedHeader
    );
    assert_eq!(client.trusted_height, 15);
    let mut frozen = ClientStateInfo { trusted_height: 5, frozen: true };
    assert_eq!(
        apply_client_update(&mut frozen, 9, true).unwrap_err(),
        ClientError::ClientExpired
    );
}
