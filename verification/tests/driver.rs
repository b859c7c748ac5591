use swarm_connection::connection::{
    Connection, HandlerPoll, ListenProtocol, MuxerEvent, Step, StreamPoll, UpgradeSettled,
};
use swarm_connection::error::ConnectionError;
use swarm_connection::keep_alive::KeepAlive;
use swarm_connection::substream::{UpgradeError, Version};

type TStep = Step<u8, u8, u8, u8, u8, u8, u8, u8, u8>;
type TConn = Connection<u8, u8, u8>;

fn listen(protocols: Vec<Vec<u8>>) -> ListenProtocol<u8> {
    ListenProtocol { protocols, user_data: 0u8, timeout: 1000 }
}

fn step_with(
    c: &mut TConn,
    now: u64,
    handler: HandlerPoll<u8, u8, u8, u8>,
    out_settled: UpgradeSettled<u8, u8>,
    in_settled: UpgradeSettled<u8, u8>,
    keep_alive: KeepAlive,
    muxer_event: MuxerEvent<u8, u8>,
    muxer_outbound: StreamPoll<u8>,
    muxer_inbound: StreamPoll<u8>,
    protocols: Vec<Vec<u8>>,
) -> TStep {
    c.step(
        now,
        handler,
        out_settled,
        in_settled,
        keep_alive,
        muxer_event,
        muxer_outbound,
        muxer_inbound,
        listen(protocols),
    )
}

fn step_quiet(c: &mut TConn, now: u64, keep_alive: KeepAlive, inbound: StreamPoll<u8>) -> TStep {
    step_with(
        c,
        now,
        HandlerPoll::Pending,
        UpgradeSettled::Pending,
        UpgradeSettled::Pending,
        keep_alive,
        MuxerEvent::Pending,
        StreamPoll::Pending,
        inbound,
        vec![],
    )
}

#[test]
fn max_negotiating_inbound_streams() {
    for k in [0usize, 1, 7, 255] {
        let mut c = TConn::new(None, k);
        loop {
            match step_quiet(&mut c, 0, KeepAlive::Yes, StreamPoll::Ready) {
                Step::InboundNegotiating { .. } => continue,
                Step::Pending => break,
                _ => panic!("unexpected step while filling the inbound set"),
            }
        }
        assert_eq!(
            c.negotiating_in_len(),
            k,
            "Expect no more than the maximum number of allowed streams"
        );
    }
}

#[test]
fn outbound_stream_timeout_starts_on_request() {
    let upgrade_timeout: u64 = 1000;
    let mut c = TConn::new(None, 2);

    let r = step_with(
        &mut c,
        0,
        HandlerPoll::OutboundSubstreamRequest { upgrade: 9, user_data: 1, timeout: upgrade_timeout },
        UpgradeSettled::Pending,
        UpgradeSettled::Pending,
        KeepAlive::Yes,
        MuxerEvent::Pending,
        StreamPoll::Pending,
        StreamPoll::Pending,
        vec![],
    );
    assert!(matches!(r, Step::RequestQueued));

    // The muxer's outbound poll stays perpetually pending.
    let r = step_quiet(&mut c, 0, KeepAlive::Yes, StreamPoll::Pending);
    assert!(matches!(r, Step::Pending));

    // Two seconds later the request has timed out even though no stream
    // was ever allocated: the timeout started at request time.
    let r = step_quiet(&mut c, 2000, KeepAlive::Yes, StreamPoll::Pending);
    assert!(matches!(r, Step::NotifyDialTimeout { user_data: 1 }));
}

#[test]
fn propagates_changes_to_supported_inbound_protocols() {
    let mut c = TConn::new(None, 2);

    let r = step_with(
        &mut c,
        0,
        HandlerPoll::Pending,
        UpgradeSettled::Pending,
        UpgradeSettled::Pending,
        KeepAlive::Yes,
        MuxerEvent::Pending,
        StreamPoll::Pending,
        StreamPoll::Ready,
        vec![b"/foo".to_vec()],
    );
    match r {
        Step::InboundNegotiating { protocols_change: Some(reported) } => {
            assert_eq!(reported, vec![b"/foo".to_vec()]);
        }
        _ => panic!("expected a protocols change on the first accept"),
    }

    let r = step_with(
        &mut c,
        0,
        HandlerPoll::Pending,
        UpgradeSettled::Pending,
        UpgradeSettled::Pending,
        KeepAlive::Yes,
        MuxerEvent::Pending,
        StreamPoll::Pending,
        StreamPoll::Ready,
        vec![b"/foo".to_vec(), b"/bar".to_vec()],
    );
    match r {
        Step::InboundNegotiating { protocols_change: Some(reported) } => {
            assert_eq!(reported, vec![b"/bar".to_vec(), b"/foo".to_vec()]);
        }
        _ => panic!("expected a protocols change on the second accept"),
    }
}

#[test]
fn no_protocols_change_when_list_unchanged() {
    let mut c = TConn::new(None, 3);
    let r = step_with(
        &mut c,
        0,
        HandlerPoll::Pending,
        UpgradeSettled::Pending,
        UpgradeSettled::Pending,
        KeepAlive::Yes,
        MuxerEvent::Pending,
        StreamPoll::Pending,
        StreamPoll::Ready,
        vec![b"/foo".to_vec()],
    );
    assert!(matches!(r, Step::InboundNegotiating { protocols_change: Some(_) }));
    // The same list, reported in a different order and with a name that
    // is not valid UTF-8: the normal form is unchanged.
    let r = step_with(
        &mut c,
        0,
        HandlerPoll::Pending,
        UpgradeSettled::Pending,
        UpgradeSettled::Pending,
        KeepAlive::Yes,
        MuxerEvent::Pending,
        StreamPoll::Pending,
        StreamPoll::Ready,
        vec![vec![0xff, 0xfe], b"/foo".to_vec()],
    );
    assert!(matches!(r, Step::InboundNegotiating { protocols_change: None }));
}

#[test]
fn idle_keep_alive_expiry() {
    let mut c = TConn::new(None, 2);
    let r = step_quiet(&mut c, 0, KeepAlive::Until(10), StreamPoll::Pending);
    assert!(matches!(r, Step::Pending));
    let r = step_quiet(&mut c, 20, KeepAlive::Until(10), StreamPoll::Pending);
    assert!(matches!(r, Step::Closed(ConnectionError::KeepAliveTimeout)));
}

#[test]
fn keep_alive_postponed_by_active_request() {
    let mut c = TConn::new(None, 2);
    let r = step_with(
        &mut c,
        0,
        HandlerPoll::OutboundSubstreamRequest { upgrade: 9, user_data: 4, timeout: 10_000 },
        UpgradeSettled::Pending,
        UpgradeSettled::Pending,
        KeepAlive::Yes,
        MuxerEvent::Pending,
        StreamPoll::Pending,
        StreamPoll::Pending,
        vec![],
    );
    assert!(matches!(r, Step::RequestQueued));

    // The keep-alive deadline has long passed, but a request is pending:
    // the connection must not terminate.
    let r = step_quiet(&mut c, 20, KeepAlive::Until(10), StreamPoll::Pending);
    assert!(matches!(r, Step::Pending));

    // Once the request times out and the set drains, the next check fires.
    let r = step_quiet(&mut c, 10_000, KeepAlive::Until(10), StreamPoll::Pending);
    assert!(matches!(r, Step::NotifyDialTimeout { user_data: 4 }));
    let r = step_quiet(&mut c, 10_000, KeepAlive::Until(10), StreamPoll::Pending);
    assert!(matches!(r, Step::Closed(ConnectionError::KeepAliveTimeout)));
}

#[test]
fn keep_alive_no_waits_for_idle() {
    let mut c = TConn::new(None, 2);
    let r = step_quiet(&mut c, 0, KeepAlive::Yes, StreamPoll::Ready);
    assert!(matches!(r, Step::InboundNegotiating { .. }));
    // An inbound upgrade negotiates: KeepAlive::No does not terminate yet.
    let r = step_quiet(&mut c, 0, KeepAlive::No, StreamPoll::Pending);
    assert!(matches!(r, Step::Pending));
    // The inbound upgrade settles; the set drains.
    let r = step_with(
        &mut c,
        0,
        HandlerPoll::Pending,
        UpgradeSettled::Pending,
        UpgradeSettled::At { index: 0, outcome: Ok(5) },
        KeepAlive::No,
        MuxerEvent::Pending,
        StreamPoll::Pending,
        StreamPoll::Pending,
        vec![],
    );
    assert!(matches!(r, Step::NotifyFullyNegotiatedInbound { user_data: 0, protocol: 5, index: 0 }));
    // Idle now: the shutdown plan is acted upon.
    let r = step_quiet(&mut c, 0, KeepAlive::No, StreamPoll::Pending);
    assert!(matches!(r, Step::Closed(ConnectionError::KeepAliveTimeout)));
}

#[test]
fn address_change_surfaces_in_same_poll() {
    let mut c = TConn::new(None, 2);
    let r = step_with(
        &mut c,
        0,
        HandlerPoll::Pending,
        UpgradeSettled::Pending,
        UpgradeSettled::Pending,
        KeepAlive::Yes,
        MuxerEvent::AddressChange(42),
        StreamPoll::Pending,
        StreamPoll::Pending,
        vec![],
    );
    assert!(matches!(r, Step::AddressChanged(42)));
}

#[test]
fn outbound_request_full_lifecycle() {
    let mut c = TConn::new(None, 2);
    let r = step_with(
        &mut c,
        0,
        HandlerPoll::OutboundSubstreamRequest { upgrade: 9, user_data: 1, timeout: 1000 },
        UpgradeSettled::Pending,
        UpgradeSettled::Pending,
        KeepAlive::Yes,
        MuxerEvent::Pending,
        StreamPoll::Pending,
        StreamPoll::Pending,
        vec![],
    );
    assert!(matches!(r, Step::RequestQueued));
    assert_eq!(c.requested_len(), 1);

    // The muxer allocates an outbound stream: the first waiting request
    // claims it and its upgrade begins negotiating.
    let r = step_with(
        &mut c,
        100,
        HandlerPoll::Pending,
        UpgradeSettled::Pending,
        UpgradeSettled::Pending,
        KeepAlive::Yes,
        MuxerEvent::Pending,
        StreamPoll::Ready,
        StreamPoll::Pending,
        vec![],
    );
    assert!(matches!(r, Step::OutboundNegotiating { upgrade: 9, version: Version::V1 }));
    assert_eq!(c.negotiating_out_len(), 1);
    assert_eq!(c.requested_len(), 1, "the extracted request is shed on the next poll");

    // The extracted request resolves and is removed on the next poll.
    let r = step_quiet(&mut c, 100, KeepAlive::Yes, StreamPoll::Pending);
    assert!(matches!(r, Step::RequestCompleted));
    assert_eq!(c.requested_len(), 0);

    // The negotiation settles within the original budget.
    let r = step_with(
        &mut c,
        900,
        HandlerPoll::Pending,
        UpgradeSettled::At { index: 0, outcome: Ok(5) },
        UpgradeSettled::Pending,
        KeepAlive::Yes,
        MuxerEvent::Pending,
        StreamPoll::Pending,
        StreamPoll::Pending,
        vec![],
    );
    assert!(matches!(r, Step::NotifyFullyNegotiatedOutbound { user_data: 1, protocol: 5, index: 0 }));
    assert_eq!(c.negotiating_out_len(), 0);
}

#[test]
fn outbound_upgrade_timeout_beats_late_result() {
    let mut c = TConn::new(None, 2);
    let r = step_with(
        &mut c,
        0,
        HandlerPoll::OutboundSubstreamRequest { upgrade: 9, user_data: 1, timeout: 1000 },
        UpgradeSettled::Pending,
        UpgradeSettled::Pending,
        KeepAlive::Yes,
        MuxerEvent::Pending,
        StreamPoll::Pending,
        StreamPoll::Pending,
        vec![],
    );
    assert!(matches!(r, Step::RequestQueued));
    let r = step_with(
        &mut c,
        0,
        HandlerPoll::Pending,
        UpgradeSettled::Pending,
        UpgradeSettled::Pending,
        KeepAlive::Yes,
        MuxerEvent::Pending,
        StreamPoll::Ready,
        StreamPoll::Pending,
        vec![],
    );
    assert!(matches!(r, Step::OutboundNegotiating { .. }));
    let r = step_quiet(&mut c, 0, KeepAlive::Yes, StreamPoll::Pending);
    assert!(matches!(r, Step::RequestCompleted));

    // The deadline passed: even though the negotiation reports success in
    // the same poll, the timeout wins.
    let r = step_with(
        &mut c,
        1000,
        HandlerPoll::Pending,
        UpgradeSettled::At { index: 0, outcome: Ok(5) },
        UpgradeSettled::Pending,
        KeepAlive::Yes,
        MuxerEvent::Pending,
        StreamPoll::Pending,
        StreamPoll::Pending,
        vec![],
    );
    assert!(matches!(
        r,
        Step::NotifyDialUpgradeError { user_data: 1, error: UpgradeError::Timeout, index: 0 }
    ));
}

#[test]
fn inbound_upgrade_failure_is_reported_not_terminal() {
    let mut c = TConn::new(None, 2);
    let r = step_quiet(&mut c, 0, KeepAlive::Yes, StreamPoll::Ready);
    assert!(matches!(r, Step::InboundNegotiating { .. }));
    let r = step_with(
        &mut c,
        1,
        HandlerPoll::Pending,
        UpgradeSettled::Pending,
        UpgradeSettled::At { index: 0, outcome: Err(7) },
        KeepAlive::Yes,
        MuxerEvent::Pending,
        StreamPoll::Pending,
        StreamPoll::Pending,
        vec![],
    );
    assert!(matches!(
        r,
        Step::NotifyListenUpgradeError { user_data: 0, error: UpgradeError::Upgrade(7), index: 0 }
    ));
    // The connection goes on.
    let r = step_quiet(&mut c, 1, KeepAlive::Yes, StreamPoll::Pending);
    assert!(matches!(r, Step::Pending));
}

#[test]
fn handler_close_and_custom_and_io_errors() {
    let mut c = TConn::new(None, 2);
    let r = step_with(
        &mut c,
        0,
        HandlerPoll::Custom(33),
        UpgradeSettled::Pending,
        UpgradeSettled::Pending,
        KeepAlive::Yes,
        MuxerEvent::Pending,
        StreamPoll::Pending,
        StreamPoll::Pending,
        vec![],
    );
    assert!(matches!(r, Step::HandlerCustom(33)));

    let r = step_with(
        &mut c,
        0,
        HandlerPoll::Close(8),
        UpgradeSettled::Pending,
        UpgradeSettled::Pending,
        KeepAlive::Yes,
        MuxerEvent::Pending,
        StreamPoll::Pending,
        StreamPoll::Pending,
        vec![],
    );
    assert!(matches!(r, Step::Closed(ConnectionError::Handler(8))));

    let mut c = TConn::new(None, 2);
    let r = step_with(
        &mut c,
        0,
        HandlerPoll::Pending,
        UpgradeSettled::Pending,
        UpgradeSettled::Pending,
        KeepAlive::Yes,
        MuxerEvent::Failed(11),
        StreamPoll::Pending,
        StreamPoll::Pending,
        vec![],
    );
    assert!(matches!(r, Step::Closed(ConnectionError::IO(11))));
}

#[test]
fn version_override_applies_to_outbound_only_when_not_default() {
    let mut c = TConn::new(Some(Version::V1Lazy), 2);
    let r = step_with(
        &mut c,
        0,
        HandlerPoll::OutboundSubstreamRequest { upgrade: 9, user_data: 1, timeout: 1000 },
        UpgradeSettled::Pending,
        UpgradeSettled::Pending,
        KeepAlive::Yes,
        MuxerEvent::Pending,
        StreamPoll::Pending,
        StreamPoll::Pending,
        vec![],
    );
    assert!(matches!(r, Step::RequestQueued));
    let r = step_with(
        &mut c,
        0,
        HandlerPoll::Pending,
        UpgradeSettled::Pending,
        UpgradeSettled::Pending,
        KeepAlive::Yes,
        MuxerEvent::Pending,
        StreamPoll::Ready,
        StreamPoll::Pending,
        vec![],
    );
    assert!(matches!(r, Step::OutboundNegotiating { upgrade: 9, version: Version::V1Lazy }));
}
