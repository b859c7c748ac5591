use swarm_connection::endpoint::{ConnectedPoint, Connected, Endpoint, IncomingInfo, PendingPoint};
use swarm_connection::error::{ConnectionLimit, PendingConnectionError};
use swarm_connection::id::{ConnectionId, ConnectionIdAllocator};
use swarm_connection::keep_alive::{KeepAlive, Shutdown, apply_keep_alive, shutdown_check};
use swarm_connection::protocols::{bytes_eq, bytes_le, clone_protocol_list, normalize_protocols,
    protocol_lists_eq, sort_protocols};
use swarm_connection::substream::{
    RequestedPoll, SubstreamRequested, SubstreamUpgrade, UpgradeError, UpgradePoll,
    UpgradeProgress, Version, deadline_at, effective_version,
};

#[test]
fn connection_ids_strictly_increase() {
    let mut alloc = ConnectionIdAllocator::new();
    let first = ConnectionId::next(&mut alloc);
    let second = ConnectionId::next(&mut alloc);
    let third = ConnectionId::next(&mut alloc);
    assert_eq!(first, ConnectionId::new_unchecked(1));
    assert_eq!(second, ConnectionId::new_unchecked(2));
    assert!(first < second && second < third);
    assert_ne!(first, third);
}

#[test]
fn keep_alive_transition_table() {
    let later = Shutdown::Later { deadline: 50 };
    for current in [Shutdown::NoPlan, Shutdown::Asap, later] {
        assert_eq!(apply_keep_alive(current, KeepAlive::Yes), Shutdown::NoPlan);
        assert_eq!(apply_keep_alive(current, KeepAlive::No), Shutdown::Asap);
        assert_eq!(
            apply_keep_alive(current, KeepAlive::Until(80)),
            Shutdown::Later { deadline: 80 }
        );
    }
    assert!(!shutdown_check(&Shutdown::NoPlan, 1000));
    assert!(shutdown_check(&Shutdown::Asap, 0));
    assert!(!shutdown_check(&Shutdown::Later { deadline: 50 }, 49));
    assert!(shutdown_check(&Shutdown::Later { deadline: 50 }, 50));
    // A deadline already in the past fires at the next check.
    assert!(shutdown_check(&apply_keep_alive(Shutdown::NoPlan, KeepAlive::Until(10)), 20));
}

#[test]
fn byte_order_and_equality() {
    assert!(bytes_le(&b"".to_vec(), &b"a".to_vec()));
    assert!(bytes_le(&b"abc".to_vec(), &b"abd".to_vec()));
    assert!(!bytes_le(&b"abd".to_vec(), &b"abc".to_vec()));
    assert!(bytes_le(&b"ab".to_vec(), &b"abc".to_vec()));
    assert!(!bytes_le(&b"abc".to_vec(), &b"ab".to_vec()));
    assert!(bytes_le(&b"abc".to_vec(), &b"abc".to_vec()));
    assert!(bytes_eq(&b"abc".to_vec(), &b"abc".to_vec()));
    assert!(!bytes_eq(&b"abc".to_vec(), &b"abd".to_vec()));
    assert!(!bytes_eq(&b"ab".to_vec(), &b"abc".to_vec()));
}

#[test]
fn normalize_filters_and_sorts() {
    // One name is not valid UTF-8 and is dropped; the rest are sorted in
    // ascending byte-lexicographic order.
    let names = vec![b"/b".to_vec(), vec![0xff, 0x00], b"/a".to_vec(), b"/a/sub".to_vec()];
    let normal = normalize_protocols(&names);
    assert_eq!(normal, vec![b"/a".to_vec(), b"/a/sub".to_vec(), b"/b".to_vec()]);

    let empty: Vec<Vec<u8>> = vec![];
    assert_eq!(normalize_protocols(&empty), empty);

    // Only the invalid name: everything is dropped.
    assert_eq!(normalize_protocols(&vec![vec![0xc0, 0x20]]), empty);
}

#[test]
fn sort_keeps_duplicates() {
    let mut names = vec![b"/b".to_vec(), b"/a".to_vec(), b"/b".to_vec()];
    sort_protocols(&mut names);
    assert_eq!(names, vec![b"/a".to_vec(), b"/b".to_vec(), b"/b".to_vec()]);
}

#[test]
fn protocol_list_helpers() {
    let a = vec![b"/a".to_vec(), b"/b".to_vec()];
    let b = vec![b"/a".to_vec(), b"/b".to_vec()];
    let c = vec![b"/b".to_vec(), b"/a".to_vec()];
    assert!(protocol_lists_eq(&a, &b));
    assert!(!protocol_lists_eq(&a, &c));
    let copy = clone_protocol_list(&a);
    assert!(protocol_lists_eq(&a, &copy));
}

#[test]
fn requested_substream_two_phase_resolution() {
    // A waiting request is untouched before its deadline.
    let mut req: SubstreamRequested<u8, u8> = SubstreamRequested::new(7, 100, 9);
    assert!(matches!(req.poll(50), RequestedPoll::Pending));
    // Once the deadline passes it resolves with its tag, for the dial
    // upgrade error report.
    assert!(matches!(req.poll(100), RequestedPoll::TimedOut(7)));

    // An extracted request resolves on the next poll and is then spent.
    let mut req: SubstreamRequested<u8, u8> = SubstreamRequested::new(7, 100, 9);
    let (user_data, deadline, upgrade) = req.extract();
    assert_eq!((user_data, deadline, upgrade), (7, 100, 9));
    assert!(matches!(req.poll(0), RequestedPoll::Completed));
}

#[test]
fn substream_upgrade_timeout_checked_first() {
    let mut up: SubstreamUpgrade<u8> = SubstreamUpgrade::new(3, 100);
    assert!(matches!(up.poll::<u8, u8>(50, UpgradeProgress::Pending), UpgradePoll::Pending));

    let mut up: SubstreamUpgrade<u8> = SubstreamUpgrade::new(3, 100);
    match up.poll::<u8, u8>(100, UpgradeProgress::Resolved(Ok(5))) {
        UpgradePoll::Finished { user_data, result } => {
            assert_eq!(user_data, 3);
            assert_eq!(result, Err(UpgradeError::Timeout));
        }
        UpgradePoll::Pending => panic!("the deadline passed; the upgrade must finish"),
    }

    let mut up: SubstreamUpgrade<u8> = SubstreamUpgrade::new(3, 100);
    match up.poll::<u8, u8>(50, UpgradeProgress::Resolved(Ok(5))) {
        UpgradePoll::Finished { user_data, result } => {
            assert_eq!(user_data, 3);
            assert_eq!(result, Ok(5));
        }
        UpgradePoll::Pending => panic!("a settled negotiation must finish the upgrade"),
    }

    let mut up: SubstreamUpgrade<u8> = SubstreamUpgrade::new(3, 100);
    match up.poll::<u8, u8>(50, UpgradeProgress::Resolved(Err(2))) {
        UpgradePoll::Finished { user_data, result } => {
            assert_eq!(user_data, 3);
            assert_eq!(result, Err(UpgradeError::Upgrade(2)));
        }
        UpgradePoll::Pending => panic!("a settled negotiation must finish the upgrade"),
    }
}

#[test]
fn effective_version_choice() {
    assert_eq!(Version::default(), Version::V1);
    assert_eq!(effective_version(None), Version::V1);
    assert_eq!(effective_version(Some(Version::V1)), Version::V1);
    assert_eq!(effective_version(Some(Version::V1Lazy)), Version::V1Lazy);
}

#[test]
fn deadline_saturates() {
    assert_eq!(deadline_at(5, 10), 15);
    assert_eq!(deadline_at(u64::MAX, 5), u64::MAX);
    assert_eq!(deadline_at(5, u64::MAX), u64::MAX);
}

#[test]
fn connection_limit_message() {
    let limit = ConnectionLimit { limit: 10, current: 12 };
    assert_eq!(limit.message(), b"connection limit exceeded (12/10)".to_vec());
    let limit = ConnectionLimit { limit: 0, current: 0 };
    assert_eq!(limit.message(), b"connection limit exceeded (0/0)".to_vec());
}

#[test]
fn pending_point_forgets_dialer_address() {
    let dialed: ConnectedPoint<&str> = ConnectedPoint::Dialer {
        address: "/ip4/1.2.3.4",
        role_override: Endpoint::Listener,
    };
    assert_eq!(
        PendingPoint::from(dialed),
        PendingPoint::Dialer { role_override: Endpoint::Listener }
    );

    let listened: ConnectedPoint<&str> = ConnectedPoint::Listener {
        local_addr: "/ip4/0.0.0.0",
        send_back_addr: "/ip4/9.9.9.9",
    };
    assert_eq!(
        PendingPoint::from(listened),
        PendingPoint::Listener {
            local_addr: "/ip4/0.0.0.0",
            send_back_addr: "/ip4/9.9.9.9",
        }
    );
}

#[test]
fn incoming_info_becomes_listener_endpoint() {
    let info = IncomingInfo { local_addr: "/ip4/0.0.0.0", send_back_addr: "/ip4/9.9.9.9" };
    let point = info.create_connected_point();
    assert_eq!(
        point,
        ConnectedPoint::Listener {
            local_addr: "/ip4/0.0.0.0",
            send_back_addr: "/ip4/9.9.9.9",
        }
    );
    let connected = Connected { endpoint: point, peer_id: 77u32 };
    assert_eq!(connected.peer_id, 77);
}

#[test]
fn pending_connection_error_variants() {
    let endpoint: ConnectedPoint<&str> = ConnectedPoint::Listener {
        local_addr: "/l",
        send_back_addr: "/s",
    };
    let wrong: PendingConnectionError<u32, &str, &str> = PendingConnectionError::WrongPeerId {
        obtained: 5,
        endpoint: endpoint.clone(),
    };
    assert!(matches!(wrong, PendingConnectionError::WrongPeerId { obtained: 5, .. }));
    let local: PendingConnectionError<u32, &str, &str> =
        PendingConnectionError::LocalPeerId { endpoint };
    assert!(matches!(local, PendingConnectionError::LocalPeerId { .. }));
    let transport: PendingConnectionError<u32, &str, &str> =
        PendingConnectionError::Transport("refused");
    assert!(matches!(transport, PendingConnectionError::Transport("refused")));
    let aborted: PendingConnectionError<u32, &str, &str> = PendingConnectionError::Aborted;
    assert!(matches!(aborted, PendingConnectionError::Aborted));
}
