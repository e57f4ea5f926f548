use udp_discovery::CollectionEnd;
use udp_discovery::DiscoveryError;
use udp_discovery::Endpoint;
use udp_discovery::InvalidReason;
use udp_discovery::ProbeAction;
use udp_discovery::ProbeEvent;
use udp_discovery::Role;
use udp_discovery::broadcast_target;
use udp_discovery::bytes_equal;
use udp_discovery::collect_window;
use udp_discovery::probe_payload;
use udp_discovery::prober_step;
use udp_discovery::resolve_identifier;
use udp_discovery::responder_step;
use udp_discovery::select_role;
use udp_discovery::COLLECTION_WINDOW_MS;
use udp_discovery::PROBE_LEN;
use udp_discovery::RECV_BUFFER_LEN;
use udp_discovery::RESPONDER_PORT;

fn ep(ip: u32, port: u16) -> Endpoint {
    Endpoint { ip, port }
}

#[test]
fn probe_payload_is_ping() {
    let p = probe_payload();
    assert_eq!(p, vec![b'P', b'I', b'N', b'G']);
    assert_eq!(p.len(), PROBE_LEN);
}

#[test]
fn protocol_constants() {
    assert_eq!(RESPONDER_PORT, 34254);
    assert_eq!(COLLECTION_WINDOW_MS, 5000);
    assert_eq!(RECV_BUFFER_LEN, 512);
}

#[test]
fn bytes_equal_cases() {
    assert!(bytes_equal(b"PING", b"PING"));
    assert!(!bytes_equal(b"PING", b"PONG"));
    assert!(!bytes_equal(b"PIN", b"PING"));
    assert!(!bytes_equal(b"PINGX", b"PING"));
    assert!(bytes_equal(b"", b""));
}

#[test]
fn responder_answers_exact_probe() {
    let sender = ep(0x7F000001, 40000);
    let id = b"host-A".to_vec();
    let r = responder_step(b"PING", sender, &id).expect("probe must be answered");
    assert_eq!(r.target, sender);
    assert_eq!(r.payload, id);
    assert!(!r.payload.is_empty());
}

#[test]
fn responder_ignores_non_probes() {
    let sender = ep(0x7F000001, 40000);
    let id = b"host-A".to_vec();
    assert!(responder_step(b"PONG", sender, &id).is_none());
    assert!(responder_step(b"PIN", sender, &id).is_none());
    assert!(responder_step(b"PINGX", sender, &id).is_none());
    assert!(responder_step(b"ping", sender, &id).is_none());
    assert!(responder_step(b"", sender, &id).is_none());
}

#[test]
fn round_trip_reply_decodes_to_identifier() {
    let prober_endpoint = ep(0x7F000001, 41000);
    let id = b"host-A".to_vec();
    let reply = responder_step(&probe_payload(), prober_endpoint, &id).expect("probe answered");
    assert_eq!(reply.target, prober_endpoint);
    let event = ProbeEvent::Reply { sender: ep(0x7F000001, RESPONDER_PORT), data: reply.payload };
    match prober_step(&event) {
        ProbeAction::Report { sender, text } => {
            assert_eq!(sender, ep(0x7F000001, RESPONDER_PORT));
            assert_eq!(text, "host-A");
        }
        other => panic!("expected a report, got {:?}", other),
    }
}

#[test]
fn prober_waits_inside_window() {
    for elapsed in [0u64, 1, 4999, 5000] {
        match prober_step(&ProbeEvent::NoData { elapsed_ms: elapsed }) {
            ProbeAction::KeepWaiting => {}
            other => panic!("expected to keep waiting at {} ms, got {:?}", elapsed, other),
        }
    }
}

#[test]
fn prober_finishes_past_window() {
    for elapsed in [5001u64, 6000, u64::MAX] {
        match prober_step(&ProbeEvent::NoData { elapsed_ms: elapsed }) {
            ProbeAction::Finish => {}
            other => panic!("expected to finish at {} ms, got {:?}", elapsed, other),
        }
    }
}

#[test]
fn prober_aborts_on_failure() {
    match prober_step(&ProbeEvent::Failure) {
        ProbeAction::Abort => {}
        other => panic!("expected abort, got {:?}", other),
    }
}

#[test]
fn lenient_decode_replaces_invalid_bytes() {
    let event = ProbeEvent::Reply { sender: ep(1, 1), data: vec![0xFF, b'h', b'i'] };
    match prober_step(&event) {
        ProbeAction::Report { text, .. } => assert_eq!(text, "\u{FFFD}hi"),
        other => panic!("expected a report, got {:?}", other),
    }
}

#[test]
fn lenient_decode_of_empty_payload_is_empty() {
    let event = ProbeEvent::Reply { sender: ep(1, 1), data: Vec::new() };
    match prober_step(&event) {
        ProbeAction::Report { text, .. } => assert_eq!(text, ""),
        other => panic!("expected a report, got {:?}", other),
    }
}

#[test]
fn collection_reports_every_reply_in_order() {
    let a = ep(0x0A000001, 34254);
    let b = ep(0x0A000002, 34254);
    let events = vec![
        ProbeEvent::Reply { sender: a, data: b"host-A".to_vec() },
        ProbeEvent::NoData { elapsed_ms: 1000 },
        ProbeEvent::Reply { sender: b, data: b"host-B".to_vec() },
        ProbeEvent::Reply { sender: b, data: b"host-B".to_vec() },
        ProbeEvent::NoData { elapsed_ms: 6000 },
        ProbeEvent::Reply { sender: a, data: b"late".to_vec() },
    ];
    let (reports, end) = collect_window(&events);
    assert_eq!(end, CollectionEnd::Completed);
    assert_eq!(reports.len(), 3);
    assert_eq!(reports[0].sender, a);
    assert_eq!(reports[0].text, "host-A");
    assert_eq!(reports[1].sender, b);
    assert_eq!(reports[1].text, "host-B");
    assert_eq!(reports[2].sender, b);
    assert_eq!(reports[2].text, "host-B");
}

#[test]
fn collection_with_no_replies_completes() {
    let events = vec![
        ProbeEvent::NoData { elapsed_ms: 2000 },
        ProbeEvent::NoData { elapsed_ms: 4000 },
        ProbeEvent::NoData { elapsed_ms: 5002 },
    ];
    let (reports, end) = collect_window(&events);
    assert!(reports.is_empty());
    assert_eq!(end, CollectionEnd::Completed);
}

#[test]
fn collection_aborts_on_transport_failure() {
    let a = ep(0x0A000001, 34254);
    let events = vec![
        ProbeEvent::Reply { sender: a, data: b"host-A".to_vec() },
        ProbeEvent::Failure,
        ProbeEvent::Reply { sender: a, data: b"host-A".to_vec() },
    ];
    let (reports, end) = collect_window(&events);
    assert_eq!(end, CollectionEnd::Aborted);
    assert_eq!(reports.len(), 1);
    assert_eq!(reports[0].text, "host-A");
}

#[test]
fn collection_over_no_events_is_exhausted() {
    let (reports, end) = collect_window(&Vec::new());
    assert!(reports.is_empty());
    assert_eq!(end, CollectionEnd::Exhausted);
}

#[test]
fn missing_mode_is_invalid() {
    assert_eq!(select_role(&Vec::new()), Role::Invalid(InvalidReason::MissingMode));
    assert_eq!(
        select_role(&vec!["udp-ping".to_string()]),
        Role::Invalid(InvalidReason::MissingMode)
    );
}

#[test]
fn unknown_mode_is_invalid() {
    let args = vec!["udp-ping".to_string(), "broadcast".to_string()];
    assert_eq!(select_role(&args), Role::Invalid(InvalidReason::UnknownMode));
    let shouty = vec!["udp-ping".to_string(), "SERVER".to_string()];
    assert_eq!(select_role(&shouty), Role::Invalid(InvalidReason::UnknownMode));
}

#[test]
fn server_and_client_modes_are_recognized() {
    let server = vec!["udp-ping".to_string(), "server".to_string()];
    assert_eq!(select_role(&server), Role::Server);
    let client = vec!["udp-ping".to_string(), "client".to_string()];
    assert_eq!(select_role(&client), Role::Client);
}

#[test]
fn broadcast_target_is_limited_broadcast() {
    let t = broadcast_target();
    assert_eq!(t.ip, 0xFFFF_FFFF);
    assert_eq!(t.port, RESPONDER_PORT);
}

#[test]
fn identifier_resolution_reports_only_lookup_failure() {
    match resolve_identifier() {
        Ok(_) => {}
        Err(e) => assert_eq!(e, DiscoveryError::HostnameResolution),
    }
}
