use dns_bridge::resolver::InitError;
use dns_bridge::startup::{start_outcome, Published, StartAction};

fn actions(oks: &[bool]) -> Vec<StartAction> {
    let mut out = vec![StartAction::first()];
    let mut action = StartAction::first();
    for ok in oks {
        action = action.next(*ok);
        out.push(action);
    }
    out
}

#[test]
fn start_begins_with_the_reactor() {
    assert_eq!(StartAction::first(), StartAction::CreateLoop);
}

#[test]
fn successful_start_publishes_last_and_then_runs() {
    assert_eq!(
        actions(&[true, true, true, true, true]),
        vec![
            StartAction::CreateLoop,
            StartAction::AddMachine,
            StartAction::OpenEngine,
            StartAction::Publish,
            StartAction::Run,
            StartAction::Stop,
        ]
    );
}

#[test]
fn reactor_that_cannot_be_set_up_aborts_the_start() {
    assert_eq!(
        actions(&[false, true]),
        vec![
            StartAction::CreateLoop,
            StartAction::Abort { error: InitError::Reactor },
            StartAction::Stop,
        ]
    );
}

#[test]
fn machine_that_cannot_be_added_aborts_the_start() {
    assert_eq!(
        actions(&[true, false, true]),
        vec![
            StartAction::CreateLoop,
            StartAction::AddMachine,
            StartAction::Abort { error: InitError::Reactor },
            StartAction::Stop,
        ]
    );
}

#[test]
fn engine_that_cannot_be_opened_aborts_the_start() {
    assert_eq!(
        actions(&[true, true, false, false]),
        vec![
            StartAction::CreateLoop,
            StartAction::AddMachine,
            StartAction::OpenEngine,
            StartAction::Abort { error: InitError::Engine },
            StartAction::Stop,
        ]
    );
}

#[test]
fn start_without_a_handle_to_publish_to_ends_without_running() {
    assert_eq!(
        actions(&[true, true, true, false]),
        vec![
            StartAction::CreateLoop,
            StartAction::AddMachine,
            StartAction::OpenEngine,
            StartAction::Publish,
            StartAction::Stop,
        ]
    );
}

#[test]
fn nothing_follows_the_end() {
    for ok in [false, true] {
        assert_eq!(StartAction::Stop.next(ok), StartAction::Stop);
        assert_eq!(StartAction::Run.next(ok), StartAction::Stop);
        assert_eq!(StartAction::Abort { error: InitError::Engine }.next(ok), StartAction::Stop);
    }
}

#[test]
fn every_start_ends_within_five_actions() {
    for bits in 0u32..64 {
        let oks: Vec<bool> = (0..6).map(|i| bits & (1 << i) != 0).collect();
        let seen = actions(&oks);
        assert_eq!(seen[5], StartAction::Stop);
        assert_eq!(seen[6], StartAction::Stop);
        let published = seen.iter().filter(|a| **a == StartAction::Publish).count();
        let aborted = seen.iter().filter(|a| matches!(a, StartAction::Abort { .. })).count();
        assert_eq!(published + aborted, 1);
    }
}

#[test]
fn thread_that_cannot_be_spawned_fails_the_start() {
    assert_eq!(start_outcome(false, Published::Nothing), Err(InitError::Spawn));
    assert_eq!(start_outcome(false, Published::Sender), Err(InitError::Spawn));
}

#[test]
fn published_sender_completes_the_start() {
    assert_eq!(start_outcome(true, Published::Sender), Ok(()));
}

#[test]
fn published_failure_fails_the_start_with_its_error() {
    for error in [InitError::Reactor, InitError::Engine, InitError::InvalidConfig, InitError::Spawn] {
        assert_eq!(start_outcome(true, Published::Failure { error }), Err(error));
    }
}

#[test]
fn silent_thread_fails_the_start() {
    assert_eq!(start_outcome(true, Published::Nothing), Err(InitError::Reactor));
}
