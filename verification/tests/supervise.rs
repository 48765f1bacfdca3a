use microvm::supervise::{classify_exit, CLEAN_EXIT_CODE};
use microvm::{Action, EngineError, Event, ExitStatus, GuestExit, State};

/// Runs the events one by one, and returns the actions that were asked for
/// and the state at the end.
fn drive(events: &[Event]) -> (Vec<Action>, State) {
    let mut state = State::start();
    let mut actions = vec![state.next_action()];
    for event in events {
        let (next, action) = state.step(*event);
        state = next;
        actions.push(action);
    }
    (actions, state)
}

#[test]
fn a_run_starts_with_the_construction() {
    assert_eq!(State::start(), State::Constructing);
    assert_eq!(State::start().next_action(), Action::Construct);
    assert_eq!(State::start().outcome(), None);
}

#[test]
fn guest_exits_cleanly() {
    let events = [
        Event::Done,
        Event::Done,
        Event::Done,
        Event::ExitCode(None),
        Event::Done,
        Event::ExitCode(None),
        Event::Done,
        Event::ExitCode(Some(0)),
    ];
    let (actions, state) = drive(&events);
    assert_eq!(state, State::Terminal(Ok(GuestExit::Clean)));
    assert_eq!(state.outcome(), Some(Ok(GuestExit::Clean)));
    assert_eq!(
        actions,
        vec![
            Action::Construct,
            Action::Resume,
            Action::WaitForEvents,
            Action::ReadExitStatus,
            Action::WaitForEvents,
            Action::ReadExitStatus,
            Action::WaitForEvents,
            Action::ReadExitStatus,
            Action::Finish,
        ]
    );
    let mut clean = 0;
    let mut abnormal = 0;
    for event in events {
        if let Event::ExitCode(code) = event {
            match classify_exit(code) {
                ExitStatus::Clean => clean += 1,
                ExitStatus::Abnormal(_) => abnormal += 1,
                ExitStatus::NotYet => {}
            }
        }
    }
    assert_eq!(clean, 1);
    assert_eq!(abnormal, 0);
}

#[test]
fn guest_crashes() {
    let events = [
        Event::Done,
        Event::Done,
        Event::Done,
        Event::ExitCode(None),
        Event::Done,
        Event::ExitCode(Some(1)),
    ];
    let (actions, state) = drive(&events);
    assert_eq!(state, State::Terminal(Ok(GuestExit::Died(1))));
    assert_eq!(state.outcome(), Some(Ok(GuestExit::Died(1))));
    assert_eq!(actions.last(), Some(&Action::Finish));
    assert!(matches!(state.outcome(), Some(Ok(_))));
}

#[test]
fn every_other_exit_code_is_a_death() {
    let mut code: u8 = 1;
    loop {
        let (state, action) = State::Inspecting.step(Event::ExitCode(Some(code)));
        assert_eq!(state, State::Terminal(Ok(GuestExit::Died(code))));
        assert_eq!(action, Action::Finish);
        if code == u8::MAX {
            break;
        }
        code += 1;
    }
    assert_eq!(
        State::Inspecting.step(Event::ExitCode(Some(148))).0,
        State::Terminal(Ok(GuestExit::Died(148)))
    );
}

#[test]
fn exit_codes_are_classified() {
    assert_eq!(CLEAN_EXIT_CODE, 0);
    assert_eq!(classify_exit(None), ExitStatus::NotYet);
    assert_eq!(classify_exit(Some(0)), ExitStatus::Clean);
    assert_eq!(classify_exit(Some(1)), ExitStatus::Abnormal(1));
    assert_eq!(classify_exit(Some(255)), ExitStatus::Abnormal(255));
}

#[test]
fn no_exit_yet_means_waiting_again() {
    assert_eq!(
        State::Inspecting.step(Event::ExitCode(None)),
        (State::Waiting, Action::WaitForEvents)
    );
    assert_eq!(State::Waiting.step(Event::Done), (State::Inspecting, Action::ReadExitStatus));
}

#[test]
fn the_guest_is_resumed_once_after_it_was_built() {
    assert_eq!(State::Constructing.step(Event::Done), (State::Paused, Action::Resume));
    assert_eq!(State::Paused.step(Event::Done), (State::Waiting, Action::WaitForEvents));
    let events = [
        Event::Done,
        Event::Done,
        Event::Done,
        Event::ExitCode(None),
        Event::Done,
        Event::ExitCode(None),
        Event::Done,
        Event::ExitCode(Some(0)),
        Event::Done,
    ];
    let (actions, _) = drive(&events);
    assert_eq!(actions.iter().filter(|a| **a == Action::Construct).count(), 1);
    assert_eq!(actions.iter().filter(|a| **a == Action::Resume).count(), 1);
}

#[test]
fn a_failed_construction_ends_the_run() {
    let (actions, state) = drive(&[Event::Failed]);
    assert_eq!(state, State::Terminal(Err(EngineError::Construction)));
    assert_eq!(actions, vec![Action::Construct, Action::Finish]);
}

#[test]
fn a_failed_resume_ends_the_run() {
    let (_, state) = drive(&[Event::Done, Event::Failed]);
    assert_eq!(state, State::Terminal(Err(EngineError::Resume)));
    let (_, state) = drive(&[Event::Done, Event::LockFailed]);
    assert_eq!(state, State::Terminal(Err(EngineError::InstanceLock)));
}

#[test]
fn a_failed_wait_ends_the_run() {
    let (actions, state) = drive(&[Event::Done, Event::Done, Event::Failed]);
    assert_eq!(state, State::Terminal(Err(EngineError::EventDispatch)));
    assert_eq!(actions.last(), Some(&Action::Finish));
}

#[test]
fn a_lock_that_cannot_be_taken_ends_the_run() {
    let (_, state) = drive(&[Event::Done, Event::Done, Event::Done, Event::LockFailed]);
    assert_eq!(state, State::Terminal(Err(EngineError::InstanceLock)));
}

#[test]
fn an_event_that_was_not_asked_for_ends_the_run() {
    let unexpected = State::Terminal(Err(EngineError::UnexpectedEvent));
    assert_eq!(State::Constructing.step(Event::ExitCode(Some(0))).0, unexpected);
    assert_eq!(State::Constructing.step(Event::LockFailed).0, unexpected);
    assert_eq!(State::Paused.step(Event::ExitCode(None)).0, unexpected);
    assert_eq!(State::Waiting.step(Event::ExitCode(Some(0))).0, unexpected);
    assert_eq!(State::Waiting.step(Event::LockFailed).0, unexpected);
    assert_eq!(State::Inspecting.step(Event::Done).0, unexpected);
    assert_eq!(State::Inspecting.step(Event::Failed).0, unexpected);
}

#[test]
fn a_terminal_state_stays() {
    let outcomes = [
        Ok(GuestExit::Clean),
        Ok(GuestExit::Died(9)),
        Err(EngineError::Construction),
        Err(EngineError::Resume),
        Err(EngineError::EventDispatch),
        Err(EngineError::InstanceLock),
        Err(EngineError::UnexpectedEvent),
    ];
    let events = [
        Event::Done,
        Event::Failed,
        Event::LockFailed,
        Event::ExitCode(None),
        Event::ExitCode(Some(0)),
        Event::ExitCode(Some(3)),
    ];
    for outcome in outcomes {
        let state = State::Terminal(outcome);
        assert_eq!(state.next_action(), Action::Finish);
        assert_eq!(state.outcome(), Some(outcome));
        for event in events {
            assert_eq!(state.step(event), (state, Action::Finish));
        }
        assert_eq!(state.replay(&events.to_vec()), state);
    }
}

#[test]
fn replay_runs_the_events_in_order() {
    assert_eq!(State::start().replay(&vec![]), State::Constructing);
    assert_eq!(State::start().replay(&vec![Event::Done]), State::Paused);
    assert_eq!(State::start().replay(&vec![Event::Done, Event::Done]), State::Waiting);
    assert_eq!(
        State::start().replay(&vec![
            Event::Done,
            Event::Done,
            Event::Done,
            Event::ExitCode(None),
            Event::Done,
            Event::ExitCode(Some(0)),
            Event::Done,
            Event::ExitCode(Some(2)),
        ]),
        State::Terminal(Ok(GuestExit::Clean))
    );
    assert_eq!(
        State::Waiting.replay(&vec![Event::Done, Event::ExitCode(Some(2))]),
        State::Terminal(Ok(GuestExit::Died(2)))
    );
}

#[test]
fn engine_faults_have_words() {
    assert_eq!(EngineError::Construction.message(), "the engine could not build the guest");
    assert_eq!(EngineError::Resume.message(), "the guest could not be resumed");
    assert_eq!(EngineError::EventDispatch.message(), "waiting for the engine's events failed");
    assert_eq!(
        EngineError::InstanceLock.message(),
        "the lock on the instance could not be taken"
    );
    assert_eq!(
        EngineError::UnexpectedEvent.message(),
        "an event was reported that no action asked for"
    );
}
