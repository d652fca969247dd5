use sidecar_supervisor::job::{JobSetup, JobStep};

/// Runs a set-up against an operating system that answers as told, and
/// gives the calls made, whether the guard is held, and the handles left
/// open (job, process).
fn run(create: bool, limit: bool, open: bool, assign: bool) -> (Vec<JobStep>, bool, (bool, bool)) {
    let mut state = JobSetup::new();
    let mut calls = Vec::new();
    let mut job = false;
    let mut process = false;
    while let Some(step) = state.pending() {
        assert!(!state.is_finished());
        assert!(calls.len() < 6);
        let ok = match step {
            JobStep::CreateJob => {
                assert!(!job && !process);
                job = create;
                create
            }
            JobStep::SetKillOnClose => {
                assert!(job);
                limit
            }
            JobStep::OpenProcess => {
                assert!(job && !process);
                process = open;
                open
            }
            JobStep::AssignProcess => {
                assert!(job && process);
                assign
            }
            JobStep::CloseProcess => {
                assert!(process);
                process = false;
                true
            }
            JobStep::CloseJob => {
                assert!(job);
                job = false;
                true
            }
        };
        calls.push(step);
        state = state.advance(ok);
    }
    assert!(state.is_finished());
    (calls, state.is_held(), (job, process))
}

#[test]
fn guard_is_held_when_every_call_succeeds() {
    let (calls, held, handles) = run(true, true, true, true);
    assert_eq!(
        calls,
        vec![
            JobStep::CreateJob,
            JobStep::SetKillOnClose,
            JobStep::OpenProcess,
            JobStep::AssignProcess,
            JobStep::CloseProcess,
        ]
    );
    assert!(held);
    assert_eq!(handles, (true, false));
}

#[test]
fn failed_creation_leaves_nothing_to_close() {
    for rest in 0..8 {
        let (calls, held, handles) = run(false, rest & 1 != 0, rest & 2 != 0, rest & 4 != 0);
        assert_eq!(calls, vec![JobStep::CreateJob]);
        assert!(!held);
        assert_eq!(handles, (false, false));
    }
}

#[test]
fn failed_limit_closes_the_job() {
    for rest in 0..4 {
        let (calls, held, handles) = run(true, false, rest & 1 != 0, rest & 2 != 0);
        assert_eq!(calls, vec![JobStep::CreateJob, JobStep::SetKillOnClose, JobStep::CloseJob]);
        assert!(!held);
        assert_eq!(handles, (false, false));
    }
}

#[test]
fn failed_open_closes_the_job() {
    for assign in [false, true] {
        let (calls, held, handles) = run(true, true, false, assign);
        assert_eq!(
            calls,
            vec![
                JobStep::CreateJob,
                JobStep::SetKillOnClose,
                JobStep::OpenProcess,
                JobStep::CloseJob,
            ]
        );
        assert!(!held);
        assert_eq!(handles, (false, false));
    }
}

#[test]
fn failed_assignment_closes_both_handles() {
    let (calls, held, handles) = run(true, true, true, false);
    assert_eq!(
        calls,
        vec![
            JobStep::CreateJob,
            JobStep::SetKillOnClose,
            JobStep::OpenProcess,
            JobStep::AssignProcess,
            JobStep::CloseProcess,
            JobStep::CloseJob,
        ]
    );
    assert!(!held);
    assert_eq!(handles, (false, false));
}

#[test]
fn guard_is_held_only_when_all_calls_succeed() {
    for bits in 0..16 {
        let (create, limit, open, assign) =
            (bits & 1 != 0, bits & 2 != 0, bits & 4 != 0, bits & 8 != 0);
        let (_, held, handles) = run(create, limit, open, assign);
        assert_eq!(held, create && limit && open && assign);
        assert_eq!(handles, (held, false));
    }
}

#[test]
fn finished_setup_stays_finished() {
    for ok in [false, true] {
        assert_eq!(JobSetup::Held.advance(ok), JobSetup::Held);
        assert_eq!(JobSetup::Failed.advance(ok), JobSetup::Failed);
    }
    assert_eq!(JobSetup::Held.pending(), None);
    assert_eq!(JobSetup::Failed.pending(), None);
    assert!(JobSetup::Held.is_held());
    assert!(!JobSetup::Failed.is_held());
    assert!(!JobSetup::new().is_held());
    assert!(!JobSetup::new().is_finished());
}

#[test]
fn closing_a_handle_counts_as_done_either_way() {
    for ok in [false, true] {
        assert_eq!(JobSetup::Releasing { assigned: true }.advance(ok), JobSetup::Held);
        assert_eq!(JobSetup::Releasing { assigned: false }.advance(ok), JobSetup::Abandoning);
        assert_eq!(JobSetup::Abandoning.advance(ok), JobSetup::Failed);
    }
}
