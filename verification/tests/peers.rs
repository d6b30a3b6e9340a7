use stoffel_rust_sdk::client_handler::ClientHandler;
use stoffel_rust_sdk::error::Error;
use stoffel_rust_sdk::peer_manager::{DiscoveryMode, PeerManager, PeerState};
use stoffel_rust_sdk::types::SocketAddress;

#[test]
fn test_peer_state_display() {
    assert_eq!(PeerState::Connected.to_text(), "Connected");
    assert_eq!(PeerState::Disconnected.to_text(), "Disconnected");
}

#[test]
fn test_peer_manager_explicit() {
    let peers = vec![(1, SocketAddress::v4(127, 0, 0, 1, 19201)), (2, SocketAddress::v4(127, 0, 0, 1, 19202))];
    let manager = PeerManager::new(0, DiscoveryMode::Explicit(peers));
    assert_eq!(manager.party_id(), 0);
    assert_eq!(manager.total_peer_count(), 2);
}

#[test]
fn explicit_peers_leave_out_self() {
    let peers = vec![(0, SocketAddress::v4(127, 0, 0, 1, 19200)), (1, SocketAddress::v4(127, 0, 0, 1, 19201))];
    let manager = PeerManager::new(0, DiscoveryMode::Explicit(peers));
    assert_eq!(manager.total_peer_count(), 1);
    assert!(manager.get_peer(0).is_none());
}

#[test]
fn test_add_peer() {
    let mut manager = PeerManager::new(0, DiscoveryMode::Explicit(vec![]));
    assert_eq!(manager.total_peer_count(), 0);
    manager.add_peer(1, SocketAddress::v4(127, 0, 0, 1, 19201));
    assert_eq!(manager.total_peer_count(), 1);
    let peer = manager.get_peer(1);
    assert!(peer.is_some());
    assert_eq!(peer.unwrap().state, PeerState::Discovered);
}

#[test]
fn mesh_connects_every_peer() {
    let peers = vec![(1, SocketAddress::v4(127, 0, 0, 1, 19201)), (2, SocketAddress::v4(127, 0, 0, 1, 19202))];
    let mut manager = PeerManager::new(0, DiscoveryMode::Explicit(peers));
    assert!(!manager.is_mesh_complete());
    assert_eq!(manager.connected_peer_count(), 0);
    manager.connect_mesh().unwrap();
    assert!(manager.is_mesh_complete());
    assert_eq!(manager.connected_peer_count(), 2);
    manager.handle_disconnection(2).unwrap();
    assert_eq!(manager.connected_peer_count(), 1);
    assert_eq!(manager.get_peer(2).unwrap().state, PeerState::Disconnected);
    manager.remove_peer(2);
    assert_eq!(manager.total_peer_count(), 1);
    assert_eq!(manager.get_all_peers().len(), 1);
}

#[test]
fn signaling_discovery_not_available() {
    let mut manager = PeerManager::new(
        0,
        DiscoveryMode::SignalingServer { address: "sig:1".to_string(), stun: None },
    );
    match manager.connect_mesh() {
        Err(Error::Runtime(m)) => assert_eq!(m, "Signaling server discovery not yet implemented"),
        _ => panic!("expected a runtime error"),
    }
}

#[test]
fn test_accept_client() {
    let mut handler = ClientHandler::new();
    let client_id = handler.accept_client(100).unwrap();
    assert_eq!(client_id, 100);
    assert!(handler.is_registered(100));
}

#[test]
fn test_duplicate_client() {
    let mut handler = ClientHandler::new();
    handler.accept_client(100).unwrap();
    match handler.accept_client(100) {
        Err(Error::InvalidInput(m)) => assert_eq!(m, "Client 100 is already registered"),
        _ => panic!("expected invalid input"),
    }
}

#[test]
fn test_store_and_get_inputs() {
    let mut handler = ClientHandler::new();
    handler.accept_client(100).unwrap();
    handler.store_inputs(100, vec![1, 2, 3]).unwrap();
    let inputs = handler.get_inputs(100);
    assert!(inputs.is_some());
    assert_eq!(inputs.unwrap(), vec![vec![1, 2, 3]]);
}

#[test]
fn buffers_clear_but_clients_stay() {
    let mut handler = ClientHandler::new();
    handler.accept_client(1).unwrap();
    handler.accept_client(2).unwrap();
    handler.store_inputs(1, vec![9]).unwrap();
    handler.store_outputs(2, vec![8]).unwrap();
    handler.mark_outputs_sent(2);
    handler.clear_buffers();
    assert!(handler.get_inputs(1).is_none());
    assert!(handler.get_outputs(2).is_none());
    assert_eq!(handler.client_count(), 2);
    let mut ids = handler.connected_clients();
    ids.sort();
    assert_eq!(ids, vec![1, 2]);
    handler.remove_client(1);
    assert!(!handler.is_registered(1));
}
