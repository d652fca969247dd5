use sidecar_supervisor::child::{BackendChild, HostEvent, Lifecycle};

#[test]
fn idempotent_kill() {
    let mut backend: BackendChild<u32, ()> = BackendChild::new(4711, None);
    assert!(backend.has_child());
    assert_eq!(backend.on_event(HostEvent::ExitRequested), Some(4711));
    assert!(!backend.has_child());
    assert_eq!(backend.on_event(HostEvent::Exit), None);
    assert_eq!(backend.on_event(HostEvent::Exit), None);
    assert_eq!(backend.on_event(HostEvent::ExitRequested), None);
    assert_eq!(backend.take_child(), None);
}

#[test]
fn exit_alone_kills_once() {
    let mut backend: BackendChild<&str, ()> = BackendChild::new("child", Some(()));
    assert_eq!(backend.phase(), Lifecycle::Running);
    assert_eq!(backend.on_event(HostEvent::Exit), Some("child"));
    assert_eq!(backend.phase(), Lifecycle::Exited);
    assert_eq!(backend.on_event(HostEvent::ExitRequested), None);
    assert_eq!(backend.phase(), Lifecycle::Exited);
}

#[test]
fn lifecycle_moves_forward_only() {
    let mut backend: BackendChild<u8, u8> = BackendChild::new(1, Some(2));
    assert_eq!(backend.phase(), Lifecycle::Running);
    assert_eq!(backend.on_event(HostEvent::Other), None);
    assert_eq!(backend.phase(), Lifecycle::Running);
    assert_eq!(backend.on_event(HostEvent::ExitRequested), Some(1));
    assert_eq!(backend.phase(), Lifecycle::ExitRequested);
    assert_eq!(backend.on_event(HostEvent::ExitRequested), None);
    assert_eq!(backend.phase(), Lifecycle::ExitRequested);
    assert_eq!(backend.on_event(HostEvent::Other), None);
    assert_eq!(backend.phase(), Lifecycle::ExitRequested);
    assert_eq!(backend.on_event(HostEvent::Exit), None);
    assert_eq!(backend.phase(), Lifecycle::Exited);
}

#[test]
fn other_events_do_not_kill() {
    let mut backend: BackendChild<u32, ()> = BackendChild::new(7, None);
    for _ in 0..10 {
        assert_eq!(backend.on_event(HostEvent::Other), None);
        assert!(backend.has_child());
    }
    assert_eq!(backend.on_event(HostEvent::ExitRequested), Some(7));
}

#[test]
fn taking_the_child_spends_the_capability() {
    let mut backend: BackendChild<String, ()> = BackendChild::new("kill".to_string(), None);
    assert_eq!(backend.take_child(), Some("kill".to_string()));
    assert_eq!(backend.take_child(), None);
    assert_eq!(backend.phase(), Lifecycle::Running);
    assert_eq!(backend.on_event(HostEvent::ExitRequested), None);
    assert_eq!(backend.on_event(HostEvent::Exit), None);
}

#[test]
fn guard_best_effort() {
    let mut unguarded: BackendChild<u32, u64> = BackendChild::new(10, None);
    assert!(!unguarded.is_guarded());
    assert!(unguarded.has_child());
    assert_eq!(unguarded.on_event(HostEvent::ExitRequested), Some(10));
    assert_eq!(unguarded.on_event(HostEvent::Exit), None);

    let mut guarded: BackendChild<u32, u64> = BackendChild::new(10, Some(99));
    assert!(guarded.is_guarded());
    assert_eq!(guarded.on_event(HostEvent::ExitRequested), Some(10));
    assert!(guarded.is_guarded());
    assert_eq!(guarded.take_child(), None);
    assert!(guarded.is_guarded());
}

#[test]
fn every_run_of_events_kills_at_most_once() {
    let events = [HostEvent::Other, HostEvent::ExitRequested, HostEvent::Exit];
    for a in events {
        for b in events {
            for c in events {
                for d in events {
                    let mut backend: BackendChild<u32, ()> = BackendChild::new(1, None);
                    let run = [a, b, c, d];
                    let mut kills = 0;
                    let mut asked = false;
                    for event in run {
                        let kill = backend.on_event(event);
                        let asks = event != HostEvent::Other;
                        assert_eq!(kill.is_some(), asks && !asked, "{run:?}");
                        asked = asked || asks;
                        if kill.is_some() {
                            kills += 1;
                        }
                    }
                    assert!(kills <= 1);
                    assert_eq!(kills == 1, asked);
                    assert_eq!(backend.has_child(), !asked);
                }
            }
        }
    }
}
