use relayer_core::bootstrap::{bootstrap_chain, ChainAction, Wallet};
use relayer_core::channel::{ChannelEnd, ChannelState, Order};
use relayer_core::connection::{ConnectionEnd, Counterparty, State};
use relayer_core::handshake::run_channel_handshake;
use relayer_core::handshake::run_connection_handshake;
use relayer_core::identifier::{ChannelId, ClientId, CommitmentPrefix, ConnectionId};
use relayer_core::packet::{decide_packet_action, PacketAction};
use relayer_core::packet::Packet;
use relayer_core::identifier::PortId;
use relayer_core::transfer::Bank;
use relayer_core::worker::PacketWorker;

fn wallet(id: &str, address: &str) -> Wallet {
    Wallet { id: id.to_string(), address: address.to_string() }
}

fn fresh_end(local_client: &str, remote_client: &str) -> ConnectionEnd {
    let client = ClientId::new(local_client.to_string()).unwrap();
    let cp = Counterparty::new(
        remote_client.to_string(),
        None,
        CommitmentPrefix::new(b"ibc".to_vec()),
    )
    .unwrap();
    ConnectionEnd::new(client, cp, vec!["1".to_string()]).unwrap()
}

#[test]
fn bootstrap_plan_seeds_wallets_and_waits_for_the_relayer() {
    let (plan, result) = bootstrap_chain(
        "chain-a".to_string(),
        wallet("validator", "cosmos1validator"),
        wallet("user", "cosmos1user"),
        wallet("relayer", "cosmos1relayer"),
        27000,
        27003,
    );
    assert_eq!(plan.len(), 9);
    assert!(matches!(plan[0], ChainAction::Initialize));
    match &plan[3] {
        ChainAction::AddGenesisAccount { address, coins } => {
            assert_eq!(address, "cosmos1user");
            assert_eq!(coins.len(), 2);
            assert_eq!(coins[0], ("stake".to_string(), 1_000_000_000_000));
            assert_eq!(coins[1], ("samoleans".to_string(), 1_000_000_000_000));
        },
        other => panic!("unexpected action {:?}", std::mem::discriminant(other)),
    }
    match &plan[8] {
        ChainAction::WaitWalletAmount { address, target, denom, retries } => {
            assert_eq!(address, "cosmos1relayer");
            assert_eq!(*target, 1_000_000_000_000u64);
            assert_eq!(denom, "samoleans");
            assert_eq!(*retries, 10);
        },
        other => panic!("unexpected action {:?}", std::mem::discriminant(other)),
    }
    assert_eq!(result.chain_id, "chain-a");
    assert_eq!(result.relayer.address, "cosmos1relayer");
}

#[test]
fn transfer_scenario_credits_the_voucher_denom() {
    // Bootstrap the two chains' plans.
    let (plan_a, _) = bootstrap_chain(
        "chain-a".to_string(),
        wallet("validator-a", "cosmos1valida"),
        wallet("user-a", "cosmos1usera"),
        wallet("relayer-a", "cosmos1relayera"),
        27000,
        27003,
    );
    let (plan_b, _) = bootstrap_chain(
        "chain-b".to_string(),
        wallet("validator-b", "cosmos1validb"),
        wallet("user-b", "cosmos1userb"),
        wallet("relayer-b", "cosmos1relayerb"),
        27010,
        27013,
    );
    assert_eq!(plan_a.len(), 9);
    assert_eq!(plan_b.len(), 9);

    // Open a connection between the two chains.
    let conn_a = fresh_end("client-on-a", "client-on-b");
    let conn_b = fresh_end("client-on-b", "client-on-a");
    let a_conn_id = ConnectionId::new("connection-0".to_string()).unwrap();
    let b_conn_id = ConnectionId::new("connection-1".to_string()).unwrap();
    let (conn_a, conn_b) = run_connection_handshake(conn_a, conn_b, &a_conn_id, &b_conn_id);
    assert_eq!(*conn_a.state(), State::Open);
    assert_eq!(*conn_b.state(), State::Open);

    // Open an unordered transfer channel on top of it.
    let chan_a = ChannelEnd::new(Order::Unordered);
    let chan_b = ChannelEnd::new(Order::Unordered);
    let a_chan_id = ChannelId::new("channel-0".to_string()).unwrap();
    let b_chan_id = ChannelId::new("channel-1".to_string()).unwrap();
    let (chan_a, chan_b) = run_channel_handshake(chan_a, chan_b, &a_chan_id, &b_chan_id).unwrap();
    assert_eq!(chan_a.state, ChannelState::Open);
    assert_eq!(chan_b.state, ChannelState::Open);

    // Relay the transfer packet for sequence 1.
    let mut worker = PacketWorker::new(1);
    let due = worker.on_packet_event(1);
    assert_eq!(due, vec![1]);
    let pkt = Packet {
        sequence: 1,
        source_port: PortId::new("transfer".to_string()).unwrap(),
        source_channel: ChannelId::new("channel-0".to_string()).unwrap(),
        destination_port: PortId::new("transfer".to_string()).unwrap(),
        destination_channel: ChannelId::new("channel-1".to_string()).unwrap(),
        data: vec![],
        timeout_height: 1_000,
        timeout_timestamp: 0,
    };
    assert_eq!(decide_packet_action(&pkt, 10, 0, false), PacketAction::Receive);

    // Apply it on chain B's bank module.
    let mut bank = Bank::new();
    let voucher = bank
        .receive_transfer("cosmos1userb".to_string(), "samoleans", 1_000_000, &b_chan_id)
        .unwrap();
    assert_eq!(
        voucher,
        "ibc/C1840BD16FCFA8F421DAA0DAAB08B9C323FC7685D0D7951DC37B3F9ECB08A199"
    );
    assert_eq!(
        bank.balance_of(&"cosmos1userb".to_string(), &voucher),
        1_000_000
    );
    // Nobody else was credited.
    assert_eq!(bank.balance_of(&"cosmos1usera".to_string(), &voucher), 0);
}

#[test]
fn timeout_scenario_is_terminal_for_the_sequence() {
    let pkt = Packet {
        sequence: 4,
        source_port: PortId::new("transfer".to_string()).unwrap(),
        source_channel: ChannelId::new("channel-0".to_string()).unwrap(),
        destination_port: PortId::new("transfer".to_string()).unwrap(),
        destination_channel: ChannelId::new("channel-1".to_string()).unwrap(),
        data: vec![],
        timeout_height: 100,
        timeout_timestamp: 0,
    };
    // The destination passed the timeout height without a receipt:
    // the decision is a timeout proof on the source chain.
    assert_eq!(decide_packet_action(&pkt, 150, 0, false), PacketAction::Timeout);
    let mut worker = PacketWorker::new(4);
    worker.on_timeout(4);
    // The sequence is never reprocessed as a receive afterwards.
    assert_eq!(worker.on_packet_event(4), Vec::<u64>::new());
    assert_eq!(worker.on_packet_event(5), vec![5]);
}
