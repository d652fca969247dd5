use sidecar_supervisor::port::{BackendState, NotReady, OutputEvent};

#[test]
fn readiness_round_trip() {
    let mut state = BackendState::new();
    assert_eq!(state.get_backend_port(), Err(NotReady));
    assert_eq!(state.observe_line(b"BACKEND_READY:53211\n"), Some(53211));
    assert_eq!(state.get_backend_port(), Ok(53211));
    assert_eq!(state.get_backend_port(), Ok(53211));
}

#[test]
fn overwrite_semantics() {
    let mut state = BackendState::new();
    assert_eq!(state.observe_line(b"BACKEND_READY:1000\n"), Some(1000));
    assert_eq!(state.get_backend_port(), Ok(1000));
    assert_eq!(state.observe_line(b"BACKEND_READY:2000\n"), Some(2000));
    assert_eq!(state.get_backend_port(), Ok(2000));
}

#[test]
fn noise_tolerance() {
    let mut state = BackendState::new();
    assert_eq!(state.observe_line(b"log: starting up"), None);
    assert_eq!(state.get_backend_port(), Err(NotReady));
    assert_eq!(state.observe_line(b"BACKEND_READY:abc\n"), None);
    assert_eq!(state.get_backend_port(), Err(NotReady));
    assert_eq!(state.observe_line(b"BACKEND_READY:8080\n"), Some(8080));
    assert_eq!(state.get_backend_port(), Ok(8080));
}

#[test]
fn noise_after_readiness_keeps_the_port() {
    let mut state = BackendState::new();
    assert_eq!(state.observe_text("BACKEND_READY:8080\n"), Some(8080));
    assert_eq!(state.observe_text("BACKEND_READY:65536\n"), None);
    assert_eq!(state.observe_text("request served\n"), None);
    assert_eq!(state.observe_line(b"\xff\xfe"), None);
    assert_eq!(state.get_backend_port(), Ok(8080));
}

#[test]
fn never_ready_query() {
    let mut state = BackendState::new();
    let lines: [&[u8]; 6] = [
        b"log: starting up",
        b"BACKEND_READY:abc\n",
        b"BACKEND_READY:\n",
        b"BACKEND_READY:65536\n",
        b"backend_ready:8080\n",
        b"",
    ];
    for round in 0..50 {
        for line in lines {
            assert_eq!(state.observe_line(line), None);
            assert_eq!(state.get_backend_port(), Err(NotReady), "round {round}");
        }
    }
}

#[test]
fn last_valid_line_wins_over_a_transcript() {
    let mut state = BackendState::new();
    let transcript = [
        "boot",
        "BACKEND_READY:1",
        "BACKEND_READY:x",
        "BACKEND_READY:2",
        "BACKEND_READY:3",
        "BACKEND_READY:70000",
        "shutting down",
    ];
    let mut expected = None;
    for line in transcript {
        let announced = state.observe_text(line);
        if announced.is_some() {
            expected = announced;
        }
        assert_eq!(state.get_backend_port().ok(), expected);
    }
    assert_eq!(state.get_backend_port(), Ok(3));
}

#[test]
fn only_standard_output_announces() {
    let mut state = BackendState::new();
    let ready = b"BACKEND_READY:4242\n".to_vec();
    assert_eq!(state.observe(&OutputEvent::Stderr(ready.clone())), None);
    assert_eq!(state.observe(&OutputEvent::Error("BACKEND_READY:4242".to_string())), None);
    assert_eq!(state.observe(&OutputEvent::Terminated), None);
    assert_eq!(state.get_backend_port(), Err(NotReady));
    assert_eq!(state.observe(&OutputEvent::Stdout(ready)), Some(4242));
    assert_eq!(state.get_backend_port(), Ok(4242));
    assert_eq!(state.observe(&OutputEvent::Terminated), None);
    assert_eq!(state.observe(&OutputEvent::Stderr(b"BACKEND_READY:1\n".to_vec())), None);
    assert_eq!(state.get_backend_port(), Ok(4242));
}

#[test]
fn not_ready_has_its_message() {
    assert_eq!(NotReady.message(), "Backend not ready yet");
    let answer = BackendState::new().get_backend_port().map_err(|e| e.message());
    assert_eq!(answer, Err("Backend not ready yet".to_string()));
}
