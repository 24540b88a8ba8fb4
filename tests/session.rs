use mosquitto::{
    check_topic, decode_payload, payload_len, publish_status, subscribe_status, CallbackRegistry,
    ConnState, Connection, Delivery, Error, Event, EventKind, Handshake, LibraryLifecycle, Qos,
    Setup, SetupAction, SetupEvent, SetupPhase,
};

#[test]
fn refcount_returns_to_zero_with_one_cleanup() {
    for n in 1..6usize {
        let mut lc = LibraryLifecycle::new();
        let mut inits = 0;
        let mut cleanups = 0;
        for _ in 0..n {
            if lc.acquire() {
                inits += 1;
            }
        }
        assert_eq!(lc.live(), n);
        for _ in 0..n {
            if lc.release() {
                cleanups += 1;
            }
        }
        assert_eq!(lc.live(), 0);
        assert_eq!(inits, 1);
        assert_eq!(cleanups, 1);
    }
}

#[test]
fn refcount_interleaved_order() {
    let mut lc = LibraryLifecycle::new();
    assert!(lc.acquire());
    assert!(!lc.acquire());
    assert!(!lc.release());
    assert!(!lc.acquire());
    assert!(!lc.release());
    assert!(lc.release());
    assert_eq!(lc.live(), 0);
}

#[test]
fn failed_init_undoes_acquire() {
    let mut lc = LibraryLifecycle::new();
    assert!(lc.acquire());
    assert!(matches!(lc.initialised(-1), Err(Error::EngineUnavailable)));
    assert_eq!(lc.live(), 0);
    assert!(lc.acquire());
    assert!(lc.initialised(0).is_ok());
    assert_eq!(lc.live(), 1);
}

fn connect_with_result(code: i32) -> (Connection, Handshake, Option<mosquitto::Result<()>>) {
    let mut c = Connection::new();
    let mut h = Handshake::new();
    let token = c.begin_connect(&mut h).unwrap();
    assert_eq!(c.state(), ConnState::Connecting);
    assert_eq!(c.connect_answered(&mut h, token, 0).unwrap(), true);
    let msg = h.forward(code).unwrap();
    let out = c.handshake_message(&mut h, token, msg);
    (c, h, out)
}

#[test]
fn handshake_zero_connects() {
    let (c, h, out) = connect_with_result(0);
    assert!(matches!(out, Some(Ok(()))));
    assert_eq!(c.state(), ConnState::Connected);
    assert!(!h.is_open());
}

#[test]
fn handshake_nonzero_fails_with_code() {
    let (c, h, out) = connect_with_result(5);
    assert!(matches!(out, Some(Err(Error::ConnectionError(5)))));
    assert_eq!(c.state(), ConnState::Failed(5));
    assert!(!h.is_open());
}

#[test]
fn immediate_connect_failure_skips_handshake() {
    let mut c = Connection::new();
    let mut h = Handshake::new();
    let token = c.begin_connect(&mut h).unwrap();
    assert!(matches!(c.connect_answered(&mut h, token, 14), Err(Error::ConnectionError(14))));
    assert_eq!(c.state(), ConnState::Failed(14));
    assert!(!h.is_open());
}

#[test]
fn timeout_then_late_result_is_dropped() {
    let mut c = Connection::new();
    let mut h = Handshake::new();
    let first = c.begin_connect(&mut h).unwrap();
    assert_eq!(c.connect_answered(&mut h, first, 0).unwrap(), true);
    let late = h.forward(0).unwrap();
    assert!(matches!(c.handshake_timed_out(&mut h, first), Error::Timeout));
    assert_eq!(c.state(), ConnState::TimedOut);
    assert_eq!(h.forward(0), None);

    let second = c.begin_reconnect(&mut h).unwrap();
    assert_ne!(first, second);
    assert!(c.reconnect_answered(&mut h, second, 0).is_ok());
    assert!(c.handshake_message(&mut h, second, late).is_none());
    assert_eq!(c.state(), ConnState::Reconnecting);
    let own = h.forward(7).unwrap();
    assert!(matches!(c.handshake_message(&mut h, second, own), Some(Err(Error::ConnectionError(7)))));
    assert_eq!(c.state(), ConnState::Failed(7));
}

#[test]
fn second_handshake_is_refused() {
    let mut c = Connection::new();
    let mut h = Handshake::new();
    c.begin_connect(&mut h).unwrap();
    assert!(matches!(c.begin_connect(&mut h), Err(Error::AlreadyConnected)));
    assert!(matches!(c.begin_reconnect(&mut h), Err(Error::AlreadyConnected)));
}

#[test]
fn network_loop_starts_once() {
    let (mut c, mut h, _) = connect_with_result(3);
    let token = c.begin_connect(&mut h).unwrap();
    assert_eq!(c.connect_answered(&mut h, token, 0).unwrap(), false);
}

#[test]
fn reinitialise_refused_while_connected() {
    let (mut c, _, _) = connect_with_result(0);
    assert!(matches!(c.reinitialise(), Err(Error::UnsupportedFeature)));
    assert!(matches!(c.begin_reconnect(&mut Handshake::new()), Err(Error::UnsupportedFeature)));
    c.disconnected();
    assert_eq!(c.state(), ConnState::Disconnected);
    assert!(c.reinitialise().is_ok());
}

#[test]
fn reregistering_one_kind_keeps_others() {
    let mut reg: CallbackRegistry<&'static str> = CallbackRegistry::new();
    reg.register(EventKind::Connect, "connect-a");
    reg.register(EventKind::Message, "message-a");
    reg.register(EventKind::Publish, "publish-a");
    reg.register(EventKind::Publish, "publish-b");
    reg.register(EventKind::Subscribe, "subscribe-a");
    assert_eq!(reg.handler(EventKind::Connect), Some(&"connect-a"));
    assert_eq!(reg.handler(EventKind::Message), Some(&"message-a"));
    assert_eq!(reg.handler(EventKind::Publish), Some(&"publish-b"));
    assert_eq!(reg.handler(EventKind::Subscribe), Some(&"subscribe-a"));
}

#[test]
fn unregistered_events_are_dropped() {
    let reg: CallbackRegistry<u8> = CallbackRegistry::new();
    assert!(matches!(reg.route(Event::Publish(3)), Delivery::Dropped));
    assert!(matches!(reg.route(Event::Message("t".to_string(), b"x".to_vec())), Delivery::Dropped));
    assert!(!reg.has_handler(EventKind::Connect));
}

#[test]
fn subscribe_then_message_reaches_handler_once() {
    assert_eq!(Qos::AtLeastOnce.code(), 1);
    assert!(check_topic("t").is_ok());
    assert!(subscribe_status(0).is_ok());
    let mut reg: CallbackRegistry<u8> = CallbackRegistry::new();
    reg.register(EventKind::Message, 1);
    let mut calls = Vec::new();
    match reg.route(Event::Message("t".to_string(), b"hello".to_vec())) {
        Delivery::Text(s) => calls.push(s),
        _ => panic!("expected text"),
    }
    assert_eq!(calls, vec!["hello".to_string()]);
}

#[test]
fn malformed_payload_goes_to_fault_path() {
    let mut reg: CallbackRegistry<u8> = CallbackRegistry::new();
    reg.register(EventKind::Message, 1);
    match reg.route(Event::Message("t".to_string(), vec![0xff, 0xfe])) {
        Delivery::Malformed(b) => assert_eq!(b, vec![0xff, 0xfe]),
        _ => panic!("expected a fault"),
    }
}

#[test]
fn codes_route_to_their_kind() {
    let mut reg: CallbackRegistry<u8> = CallbackRegistry::new();
    reg.register(EventKind::Subscribe, 2);
    reg.register(EventKind::Connect, 3);
    assert!(matches!(reg.route(Event::Subscribe(11)), Delivery::Code(EventKind::Subscribe, 11)));
    assert!(matches!(reg.route(Event::Connect(0)), Delivery::Code(EventKind::Connect, 0)));
}

#[test]
fn decode_payload_text() {
    assert_eq!(decode_payload(b"hello"), Some("hello".to_string()));
    assert_eq!(decode_payload("h\u{e9}".as_bytes()), Some("h\u{e9}".to_string()));
    assert_eq!(decode_payload(&[0xc3]), None);
    assert_eq!(decode_payload(b""), Some(String::new()));
}

#[test]
fn topic_and_payload_checks() {
    assert!(check_topic("hello/world").is_ok());
    assert!(matches!(check_topic("bad\0topic"), Err(Error::InvalidTopic)));
    assert_eq!(payload_len(b"hello rust").unwrap(), 10);
    assert_eq!(payload_len(&[]).unwrap(), 0);
}

#[test]
fn engine_statuses_are_wrapped() {
    assert!(publish_status(0).is_ok());
    assert!(matches!(publish_status(4), Err(Error::PublishError(4))));
    assert!(matches!(subscribe_status(-2), Err(Error::SubscribeError(-2))));
}

#[test]
fn setup_success_holds_one_reference() {
    let mut lc = LibraryLifecycle::new();
    let mut s = Setup::new();
    assert!(matches!(s.step(&mut lc, SetupEvent::Acquire), SetupAction::Initialise));
    assert!(matches!(s.step(&mut lc, SetupEvent::Initialised(0)), SetupAction::CreateHandle));
    assert!(matches!(s.step(&mut lc, SetupEvent::HandleCreated(true)), SetupAction::Configure));
    assert!(matches!(s.step(&mut lc, SetupEvent::OptionsApplied(0)), SetupAction::Secure));
    assert!(matches!(s.step(&mut lc, SetupEvent::Configured(Some(0))), SetupAction::Connect));
    assert_eq!(s.phase(), SetupPhase::Ready);
    assert_eq!(lc.live(), 1);
}

#[test]
fn setup_failures_give_reference_back() {
    let mut lc = LibraryLifecycle::new();
    let mut s = Setup::new();
    s.step(&mut lc, SetupEvent::Acquire);
    assert!(matches!(s.step(&mut lc, SetupEvent::Initialised(1)), SetupAction::Fail(Error::EngineUnavailable, false)));
    assert_eq!(lc.live(), 0);

    let mut s = Setup::new();
    s.step(&mut lc, SetupEvent::Acquire);
    s.step(&mut lc, SetupEvent::Initialised(0));
    assert!(matches!(s.step(&mut lc, SetupEvent::HandleCreated(false)), SetupAction::Fail(Error::InvalidMosqClient, true)));
    assert_eq!(s.phase(), SetupPhase::Failed);
    assert_eq!(lc.live(), 0);

    let mut keep = Setup::new();
    keep.step(&mut lc, SetupEvent::Acquire);
    keep.step(&mut lc, SetupEvent::Initialised(0));
    let mut s = Setup::new();
    assert!(matches!(s.step(&mut lc, SetupEvent::Acquire), SetupAction::CreateHandle));
    s.step(&mut lc, SetupEvent::HandleCreated(true));
    s.step(&mut lc, SetupEvent::OptionsApplied(0));
    assert!(matches!(s.step(&mut lc, SetupEvent::Configured(Some(9))), SetupAction::Fail(Error::TlsError(9), false)));
    assert_eq!(lc.live(), 1);

    let mut s = Setup::new();
    s.step(&mut lc, SetupEvent::Acquire);
    s.step(&mut lc, SetupEvent::HandleCreated(true));
    assert_eq!(lc.live(), 2);
    assert!(matches!(s.step(&mut lc, SetupEvent::OptionsApplied(4)), SetupAction::Fail(Error::InvalidOption(4), false)));
    assert_eq!(lc.live(), 1);
}

#[test]
fn setup_without_tls_connects() {
    let mut lc = LibraryLifecycle::new();
    let mut s = Setup::new();
    s.step(&mut lc, SetupEvent::Acquire);
    s.step(&mut lc, SetupEvent::Initialised(0));
    s.step(&mut lc, SetupEvent::HandleCreated(true));
    s.step(&mut lc, SetupEvent::OptionsApplied(0));
    assert_eq!(s.phase(), SetupPhase::Securing);
    assert!(matches!(s.step(&mut lc, SetupEvent::Configured(None)), SetupAction::Connect));
    assert_eq!(lc.live(), 1);
}
