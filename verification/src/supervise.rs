//! Booting the guest and supervising it until it stops.
//!
//! The engine is driven by the caller. What is decided here is what the caller
//! does next, and what the run came to. The caller starts in
//! [`State::Constructing`], performs the [`Action`] of the state it is in,
//! reports what the engine did as an [`Event`], and goes on from the state
//! that [`State::step`] returns, until the action is [`Action::Finish`].
//!
//! The guest is built, then resumed, since building leaves it paused. After
//! that each turn waits for the engine to process a batch of events, and only
//! then reads the exit status. Nothing is tried twice, and a state that is
//! terminal stays as it is.

use vstd::prelude::*;

verus! {

/// The exit code with which a guest reports an orderly halt.
pub const CLEAN_EXIT_CODE: u8 = 0;

/// What the instance says of its shutdown.
#[derive(Clone, Copy, Debug, PartialEq, Eq)]
pub enum ExitStatus {
    /// The guest has not stopped.
    NotYet,
    /// The guest halted in good order.
    Clean,
    /// The guest stopped in any other way, with this exit code.
    Abnormal(u8),
}

/// How a guest ended that was supervised to its end. Neither is a fault of the
/// run.
#[derive(Clone, Copy, Debug, PartialEq, Eq)]
pub enum GuestExit {
    /// The guest halted in good order.
    Clean,
    /// The guest died, with this exit code.
    Died(u8),
}

/// Why a run could not be brought to the guest's end.
#[derive(Clone, Copy, Debug, PartialEq, Eq)]
pub enum EngineError {
    /// The engine could not build the guest.
    Construction,
    /// The guest could not be resumed after it was built.
    Resume,
    /// Waiting for the engine's events failed.
    EventDispatch,
    /// The lock on the instance could not be taken.
    InstanceLock,
    /// The caller reported an event that cannot follow the action it was
    /// given.
    UnexpectedEvent,
}

/// What the caller does next.
#[derive(Clone, Copy, Debug, PartialEq, Eq)]
pub enum Action {
    /// Hand the resource bundle to the engine and have it build the guest.
    Construct,
    /// Resume the guest.
    Resume,
    /// Block until the engine has processed a batch of events.
    WaitForEvents,
    /// Read the exit status of the instance.
    ReadExitStatus,
    /// Nothing: the run is over.
    Finish,
}

/// What the engine did with the last action.
#[derive(Clone, Copy, Debug, PartialEq, Eq)]
pub enum Event {
    /// It succeeded.
    Done,
    /// It failed.
    Failed,
    /// The lock on the instance could not be taken.
    LockFailed,
    /// The exit status was read: the guest's exit code, if it has stopped.
    ExitCode(Option<u8>),
}

/// Where a run stands.
#[derive(Clone, Copy, Debug, PartialEq, Eq)]
pub enum State {
    /// The guest is yet to be built.
    Constructing,
    /// The guest is built and paused.
    Paused,
    /// The guest runs, and the engine's next batch of events is awaited.
    Waiting,
    /// The guest runs, a batch of events was processed, and the exit status
    /// is to be read.
    Inspecting,
    /// The run is over.
    Terminal(Result<GuestExit, EngineError>),
}

/// The three phases of a run.
#[derive(Clone, Copy, Debug, PartialEq, Eq)]
pub enum Phase {
    Constructing,
    Running,
    Terminal,
}

/// The meaning of an exit code that was read.
pub open spec fn exit_status(code: Option<u8>) -> ExitStatus {
    match code {
        None => ExitStatus::NotYet,
        Some(c) => if c == CLEAN_EXIT_CODE {
            ExitStatus::Clean
        } else {
            ExitStatus::Abnormal(c)
        },
    }
}

/// The state after an exit status was read.
pub open spec fn after_status(status: ExitStatus) -> State {
    match status {
        ExitStatus::NotYet => State::Waiting,
        ExitStatus::Clean => State::Terminal(Ok(GuestExit::Clean)),
        ExitStatus::Abnormal(c) => State::Terminal(Ok(GuestExit::Died(c))),
    }
}

/// The state that ends the run with a fault.
pub open spec fn failed(e: EngineError) -> State {
    State::Terminal(Err(e))
}

impl State {
    /// The phase of a state.
    pub open spec fn phase(self) -> Phase {
        match self {
            State::Constructing | State::Paused => Phase::Constructing,
            State::Waiting | State::Inspecting => Phase::Running,
            State::Terminal(_) => Phase::Terminal,
        }
    }

    /// What the caller does in a state.
    pub open spec fn action(self) -> Action {
        match self {
            State::Constructing => Action::Construct,
            State::Paused => Action::Resume,
            State::Waiting => Action::WaitForEvents,
            State::Inspecting => Action::ReadExitStatus,
            State::Terminal(_) => Action::Finish,
        }
    }

    /// The state that follows on an event.
    pub open spec fn next(self, event: Event) -> State {
        match self {
            State::Constructing => match event {
                Event::Done => State::Paused,
                Event::Failed => failed(EngineError::Construction),
                _ => failed(EngineError::UnexpectedEvent),
            },
            State::Paused => match event {
                Event::Done => State::Waiting,
                Event::Failed => failed(EngineError::Resume),
                Event::LockFailed => failed(EngineError::InstanceLock),
                _ => failed(EngineError::UnexpectedEvent),
            },
            State::Waiting => match event {
                Event::Done => State::Inspecting,
                Event::Failed => failed(EngineError::EventDispatch),
                _ => failed(EngineError::UnexpectedEvent),
            },
            State::Inspecting => match event {
                Event::ExitCode(code) => after_status(exit_status(code)),
                Event::LockFailed => failed(EngineError::InstanceLock),
                _ => failed(EngineError::UnexpectedEvent),
            },
            State::Terminal(outcome) => State::Terminal(outcome),
        }
    }

    /// The state reached from this one by a sequence of events.
    pub open spec fn run(self, events: Seq<Event>) -> State
        decreases events.len(),
    {
        if events.len() == 0 {
            self
        } else {
            self.run(events.drop_last()).next(events.last())
        }
    }
}

impl EngineError {
    /// The fault in words.
    pub open spec fn text(self) -> Seq<char> {
        match self {
            EngineError::Construction => "the engine could not build the guest"@,
            EngineError::Resume => "the guest could not be resumed"@,
            EngineError::EventDispatch => "waiting for the engine's events failed"@,
            EngineError::InstanceLock => "the lock on the instance could not be taken"@,
            EngineError::UnexpectedEvent => "an event was reported that no action asked for"@,
        }
    }

    /// The fault in words.
    pub fn message(&self) -> (r: String)
        ensures
            r@ == self.text(),
    {
        match self {
            EngineError::Construction => "the engine could not build the guest".to_owned(),
            EngineError::Resume => "the guest could not be resumed".to_owned(),
            EngineError::EventDispatch => "waiting for the engine's events failed".to_owned(),
            EngineError::InstanceLock => "the lock on the instance could not be taken".to_owned(),
            EngineError::UnexpectedEvent => "an event was reported that no action asked for"
                .to_owned(),
        }
    }
}

/// Says what an exit code means.
pub fn classify_exit(code: Option<u8>) -> (r: ExitStatus)
    ensures
        r == exit_status(code),
{
    match code {
        None => ExitStatus::NotYet,
        Some(c) => if c == CLEAN_EXIT_CODE {
            ExitStatus::Clean
        } else {
            ExitStatus::Abnormal(c)
        },
    }
}

impl State {
    /// The state in which every run starts.
    pub fn start() -> (r: State)
        ensures
            r == State::Constructing,
    {
        State::Constructing
    }

    /// What the caller does in this state.
    pub fn next_action(&self) -> (r: Action)
        ensures
            r == self.action(),
    {
        match self {
            State::Constructing => Action::Construct,
            State::Paused => Action::Resume,
            State::Waiting => Action::WaitForEvents,
            State::Inspecting => Action::ReadExitStatus,
            State::Terminal(_) => Action::Finish,
        }
    }

    /// What the run came to, once it is over.
    pub fn outcome(&self) -> (r: Option<Result<GuestExit, EngineError>>)
        ensures
            r == match *self {
                State::Terminal(outcome) => Some(outcome),
                _ => None,
            },
    {
        match self {
            State::Terminal(outcome) => Some(*outcome),
            _ => None,
        }
    }

    /// Takes the event that answers this state's action, and returns the next
    /// state with the action that the caller does in it.
    pub fn step(self, event: Event) -> (r: (State, Action))
        ensures
            r.0 == self.next(event),
            r.1 == self.next(event).action(),
    {
        let next = match self {
            State::Constructing => match event {
                Event::Done => State::Paused,
                Event::Failed => State::Terminal(Err(EngineError::Construction)),
                _ => State::Terminal(Err(EngineError::UnexpectedEvent)),
            },
            State::Paused => match event {
                Event::Done => State::Waiting,
                Event::Failed => State::Terminal(Err(EngineError::Resume)),
                Event::LockFailed => State::Terminal(Err(EngineError::InstanceLock)),
                _ => State::Terminal(Err(EngineError::UnexpectedEvent)),
            },
            State::Waiting => match event {
                Event::Done => State::Inspecting,
                Event::Failed => State::Terminal(Err(EngineError::EventDispatch)),
                _ => State::Terminal(Err(EngineError::UnexpectedEvent)),
            },
            State::Inspecting => match event {
                Event::ExitCode(code) => match classify_exit(code) {
                    ExitStatus::NotYet => State::Waiting,
                    ExitStatus::Clean => State::Terminal(Ok(GuestExit::Clean)),
                    ExitStatus::Abnormal(c) => State::Terminal(Ok(GuestExit::Died(c))),
                },
                Event::LockFailed => State::Terminal(Err(EngineError::InstanceLock)),
                _ => State::Terminal(Err(EngineError::UnexpectedEvent)),
            },
            State::Terminal(outcome) => State::Terminal(outcome),
        };
        let action = next.next_action();
        (next, action)
    }

    /// The state that a run reaches from this one on the given events.
    pub fn replay(self, events: &Vec<Event>) -> (r: State)
        ensures
            r == self.run(events@),
    {
        let mut state = self;
        let mut i: usize = 0;
        assert(events@.take(0) =~= Seq::empty());
        while i < events.len()
            invariant
                i <= events.len(),
                state == self.run(events@.take(i as int)),
            decreases events.len() - i,
        {
            assert(events@.take(i + 1).drop_last() =~= events@.take(i as int));
            state = state.step(events[i]).0;
            i += 1;
        }
        assert(events@.take(i as int) =~= events@);
        state
    }
}

/// A terminal state is left by no event and by no sequence of events, and
/// nothing is asked of the engine in it.
pub proof fn law_terminal_absorbing(outcome: Result<GuestExit, EngineError>, events: Seq<Event>)
    ensures
        State::Terminal(outcome).run(events) == State::Terminal(outcome),
        State::Terminal(outcome).action() == Action::Finish,
    decreases events.len(),
{
    if events.len() > 0 {
        law_terminal_absorbing(outcome, events.drop_last());
    }
}

/// The phases follow one another and never go back: constructing, then
/// running, then terminal.
pub proof fn law_phases_in_order(state: State, event: Event)
    ensures
        state.phase() == Phase::Running ==> state.next(event).phase() != Phase::Constructing,
        state.phase() == Phase::Terminal ==> state.next(event) == state,
{
}

/// Nothing is tried twice: no event leads back to the state in which the
/// guest is built, and the guest is resumed only right after it was built.
pub proof fn law_no_retry(state: State, event: Event)
    ensures
        state.next(event) != State::Constructing,
        state.next(event) == State::Paused ==> state == State::Constructing && event
            == Event::Done,
{
}

/// The exit status is read only after the engine has processed a batch of
/// events, and after each reading that finds the guest running the next
/// thing is to wait again.
pub proof fn law_wait_before_status(state: State, event: Event)
    ensures
        state.next(event).action() == Action::ReadExitStatus ==> state.action()
            == Action::WaitForEvents && event == Event::Done,
        state == State::Inspecting && event == Event::ExitCode(None) ==> state.next(event).action()
            == Action::WaitForEvents,
{
}

/// What a reading of the exit status leads to: a clean exit and any other
/// exit both end the run without a fault, and can be told apart.
pub proof fn law_exit_classified(code: u8)
    ensures
        State::Inspecting.next(Event::ExitCode(Some(code))) == State::Terminal(
            Ok(
                if code == 0 {
                    GuestExit::Clean
                } else {
                    GuestExit::Died(code)
                },
            ),
        ),
{
}

/// A failure of the engine ends the run at once, with the fault that names
/// the action that failed.
pub proof fn law_failure_is_final(state: State)
    requires
        state.phase() != Phase::Terminal,
    ensures
        state.next(Event::Failed) is Terminal,
        state.next(Event::Failed)->Terminal_0 is Err,
        state.next(Event::LockFailed) is Terminal,
        state.next(Event::LockFailed)->Terminal_0 is Err,
        State::Constructing.next(Event::Failed) == failed(EngineError::Construction),
        State::Paused.next(Event::Failed) == failed(EngineError::Resume),
        State::Paused.next(Event::LockFailed) == failed(EngineError::InstanceLock),
        State::Waiting.next(Event::Failed) == failed(EngineError::EventDispatch),
        State::Inspecting.next(Event::LockFailed) == failed(EngineError::InstanceLock),
{
}

/// The exit status that the `i`-th event of a run made known, if that event
/// was a reading of the exit status that the run had asked for.
pub open spec fn status_read(events: Seq<Event>, i: int) -> Option<ExitStatus> {
    if 0 <= i < events.len() && State::Constructing.run(events.take(i)) == State::Inspecting {
        match events[i] {
            Event::ExitCode(code) => Some(exit_status(code)),
            _ => None,
        }
    } else {
        None
    }
}

/// Whether the `i`-th event of a run made known that the guest has stopped.
pub open spec fn stop_read(events: Seq<Event>, i: int) -> bool {
    status_read(events, i) matches Some(status) && status != ExitStatus::NotYet
}

proof fn lemma_status_read_prefix(events: Seq<Event>, i: int)
    requires
        0 <= i < events.len() - 1,
    ensures
        status_read(events.drop_last(), i) == status_read(events, i),
{
    assert(events.drop_last().take(i) =~= events.take(i));
}

/// A run learns at most once that the guest has stopped, and ends right
/// there. A run that ended with the guest's exit learned it by exactly one
/// reading, which gave that exit; any other run has learned of no stop.
pub proof fn law_one_stop_read(events: Seq<Event>)
    ensures
        match State::Constructing.run(events) {
            State::Terminal(Ok(exit)) => exists|i: int|
                {
                    &&& 0 <= i < events.len()
                    &&& #[trigger] status_read(events, i) == Some(
                        match exit {
                            GuestExit::Clean => ExitStatus::Clean,
                            GuestExit::Died(c) => ExitStatus::Abnormal(c),
                        },
                    )
                    &&& forall|j: int| j != i ==> !#[trigger] stop_read(events, j)
                },
            _ => forall|j: int| !#[trigger] stop_read(events, j),
        },
    decreases events.len(),
{
    if events.len() > 0 {
        let shorter = events.drop_last();
        let last = events.len() - 1;
        law_one_stop_read(shorter);
        assert(events.take(last) =~= shorter);
        assert forall|j: int| 0 <= j < last implies status_read(shorter, j) == status_read(
            events,
            j,
        ) by {
            lemma_status_read_prefix(events, j);
        }
        match State::Constructing.run(shorter) {
            State::Terminal(Ok(exit)) => {
                let i = choose|i: int|
                    {
                        &&& 0 <= i < shorter.len()
                        &&& #[trigger] status_read(shorter, i) == Some(
                            match exit {
                                GuestExit::Clean => ExitStatus::Clean,
                                GuestExit::Died(c) => ExitStatus::Abnormal(c),
                            },
                        )
                        &&& forall|j: int| j != i ==> !#[trigger] stop_read(shorter, j)
                    };
                assert(status_read(events, i) == status_read(shorter, i));
                assert forall|j: int| j != i implies !#[trigger] stop_read(events, j) by {
                    if 0 <= j < last {
                        assert(!stop_read(shorter, j));
                    }
                }
            },
            State::Terminal(Err(_)) => {
                assert forall|j: int| !#[trigger] stop_read(events, j) by {
                    if 0 <= j < last {
                        assert(!stop_read(shorter, j));
                    }
                }
            },
            before => {
                match State::Constructing.run(events) {
                    State::Terminal(Ok(exit)) => {
                        assert(before == State::Inspecting);
                        assert(status_read(events, last) == Some(
                            match exit {
                                GuestExit::Clean => ExitStatus::Clean,
                                GuestExit::Died(c) => ExitStatus::Abnormal(c),
                            },
                        ));
                        assert forall|j: int| j != last implies !#[trigger] stop_read(
                            events,
                            j,
                        ) by {
                            if 0 <= j < last {
                                assert(!stop_read(shorter, j));
                            }
                        }
                    },
                    _ => {
                        assert forall|j: int| !#[trigger] stop_read(events, j) by {
                            if 0 <= j < last {
                                assert(!stop_read(shorter, j));
                            }
                        }
                    },
                }
            },
        }
    } else {
        assert forall|j: int| !#[trigger] stop_read(events, j) by {}
    }
}

} // verus!
