//! Client-side rules and the ensure handshake: id generation, response
//! correlation, the liveness probe, and the spawn race.

use bronzite::client::{take_response, ClientSession, Error};
use bronzite::codec_resp::encode_response;
use bronzite::extract::extract_json_objects;
use bronzite::lifecycle::{
    ensure_step, is_daemon_running, ping_request_line, socket_name_for_workspace, EnsureEvent,
    EnsurePhase,
};
use bronzite::protocol::{Query, QueryData, QueryResult, Response};

#[test]
fn session_ids_grow_one_by_one() {
    let mut session = ClientSession::new();
    let a = session.make_request(&"c".to_string(), Query::Ping);
    let b = session.make_request(&"c".to_string(), Query::ListItems);
    assert_eq!(a.id, 1);
    assert_eq!(b.id, 2);
    assert_ne!(a.id, b.id);
}

#[test]
fn response_correlation_rejects_foreign_ids() {
    // the daemon answers request 8, but request 7 is outstanding
    let response = Response {
        id: 8,
        result: QueryResult::Success {
            data: QueryData::Pong,
        },
    };
    let line = encode_response(&response);
    match take_response(7, &line) {
        Err(Error::ResponseMismatch { expected, got }) => {
            assert_eq!(expected, 7);
            assert_eq!(got, 8);
        }
        _ => panic!("a foreign id must be a correlation error"),
    }
}

#[test]
fn correlation_is_checked_before_any_payload() {
    // a data-carrying response with a foreign id is a correlation error,
    // not a decode error: the envelope is judged first
    let response = Response {
        id: 8,
        result: QueryResult::Success {
            data: QueryData::Items { items: vec![] },
        },
    };
    let line = bronzite::codec_resp::encode_response(&response);
    match take_response(7, &line) {
        Err(Error::ResponseMismatch { expected, got }) => {
            assert_eq!(expected, 7);
            assert_eq!(got, 8);
        }
        _ => panic!("the envelope id must be judged before the payload"),
    }
}

#[test]
fn matching_ids_hand_back_the_payload() {
    let response = Response {
        id: 7,
        result: QueryResult::Success {
            data: QueryData::Pong,
        },
    };
    let line = encode_response(&response);
    assert!(matches!(take_response(7, &line), Ok(QueryData::Pong)));

    let failure = Response {
        id: 7,
        result: QueryResult::Error {
            message: "Trait 'X' not found".to_string(),
        },
    };
    let line = encode_response(&failure);
    match take_response(7, &line) {
        Err(Error::DaemonError(m)) => assert_eq!(m, "Trait 'X' not found"),
        _ => panic!("a typed failure must surface as a daemon error"),
    }
}

#[test]
fn unreadable_response_is_a_protocol_error() {
    match take_response(1, "not a response at all") {
        Err(Error::SerializationError(_)) => {}
        _ => panic!("garbage must be a protocol error"),
    }
}

#[test]
fn wrong_payload_shape_is_rejected() {
    match bronzite::client::expect_items(QueryData::Pong) {
        Err(Error::UnexpectedResponse) => {}
        _ => panic!("a liveness payload is not an item listing"),
    }
}

#[test]
fn probe_line_and_pong_check() {
    let line = ping_request_line();
    assert!(line.contains("ping"));

    let pong = encode_response(&Response {
        id: 0,
        result: QueryResult::Success {
            data: QueryData::Pong,
        },
    });
    assert!(is_daemon_running(&Some(pong)));
    assert!(!is_daemon_running(&Some("{\"id\":0}".to_string())));
    assert!(!is_daemon_running(&None));
}

#[test]
fn ensure_race_scenario() {
    let timeout = 1000u64;
    let poll = 50u64;

    // caller one finds nothing, spawns, and its daemon binds the socket
    let one = EnsurePhase::Checking;
    let one = ensure_step(&one, &EnsureEvent::ProbeDown, timeout, poll);
    let one = ensure_step(&one, &EnsureEvent::SpawnOk, timeout, poll);

    // caller two raced to the same gap; its spawn dies on the bound socket,
    // observed only as probes that eventually answer
    let two = EnsurePhase::Checking;
    let two = ensure_step(&two, &EnsureEvent::ProbeDown, timeout, poll);
    let two = ensure_step(&two, &EnsureEvent::SpawnOk, timeout, poll);
    let two = ensure_step(&two, &EnsureEvent::ProbeDown, timeout, poll);

    // both observe success as soon as any probe sees the one bound daemon
    let one = ensure_step(&one, &EnsureEvent::ProbeUp, timeout, poll);
    let two = ensure_step(&two, &EnsureEvent::ProbeUp, timeout, poll);
    assert!(matches!(one, EnsurePhase::Ready));
    assert!(matches!(two, EnsurePhase::Ready));
}

#[test]
fn ensure_times_out_with_the_distinct_reason() {
    let timeout = 100u64;
    let poll = 60u64;
    let mut phase = EnsurePhase::Checking;
    phase = ensure_step(&phase, &EnsureEvent::ProbeDown, timeout, poll);
    phase = ensure_step(&phase, &EnsureEvent::SpawnOk, timeout, poll);
    phase = ensure_step(&phase, &EnsureEvent::ProbeDown, timeout, poll);
    phase = ensure_step(&phase, &EnsureEvent::ProbeDown, timeout, poll);
    phase = ensure_step(&phase, &EnsureEvent::ProbeDown, timeout, poll);
    assert!(matches!(
        phase,
        EnsurePhase::Failed {
            reason: bronzite::lifecycle::EnsureFailure::StartTimeout
        }
    ));
}

#[test]
fn spawn_failure_is_fatal_and_distinct() {
    let phase = EnsurePhase::Spawning;
    let phase = ensure_step(&phase, &EnsureEvent::SpawnFailed, 100, 10);
    assert!(matches!(
        phase,
        EnsurePhase::Failed {
            reason: bronzite::lifecycle::EnsureFailure::SpawnFailed
        }
    ));
}

#[test]
fn socket_names_are_deterministic_per_workspace() {
    let a = socket_name_for_workspace("/home/dev/project");
    let b = socket_name_for_workspace("/home/dev/project");
    let c = socket_name_for_workspace("/home/dev/other");
    assert_eq!(a, b);
    assert_ne!(a, c);
    assert!(a.starts_with("bronzite-"));
    assert!(a.ends_with(".sock"));
}

#[test]
fn extractor_output_scan_is_brace_aware() {
    let noisy = "warning: something\n{\n  \"crate_name\": \"a{b\",\n  \"note\": \"esc \\\" } ok\"\n}\ntrailing {\"crate_name\":\"second\"} end";
    let objects = extract_json_objects(noisy);
    assert_eq!(objects.len(), 2);
    assert!(objects[0].contains("a{b"));
    assert_eq!(objects[1], "{\"crate_name\":\"second\"}");
}

#[test]
fn stray_closing_braces_leave_the_region_unbalanced() {
    // stray closers push the depth below zero, so the following brace
    // pair never returns to the top level and no object is reported
    let objects = extract_json_objects("}} {\"crate_name\":\"x\"} }");
    assert_eq!(objects.len(), 0);

    // balanced text after the noise is unaffected when the depth recovers
    let objects = extract_json_objects("{\"a\":1} {\"crate_name\":\"x\"}");
    assert_eq!(objects.len(), 2);
}
