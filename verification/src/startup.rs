//! The order in which the reactor thread comes up, and what the handle under
//! construction makes of it. The sending side of the channel is published
//! last, once the reactor, the machine and the engine are up, so that a
//! handle never exists before requests can be taken.

use crate::resolver::InitError;
use vstd::prelude::*;

verus! {

/// What the reactor thread is to do next while it comes up.
#[derive(Clone, Copy, Debug, PartialEq, Eq, Structural)]
pub enum StartAction {
    /// Set the reactor up.
    CreateLoop,
    /// Add the state machine to the reactor, with its channel.
    AddMachine,
    /// Open the resolution engine.
    OpenEngine,
    /// Hand the sending side of the channel to the handle.
    Publish,
    /// Run the reactor until it is told to quit.
    Run,
    /// Tell the handle that the service could not be started, and end.
    Abort { error: InitError },
    /// End: there is nothing left to do.
    Stop,
}

/// What the reactor thread told the handle while it came up.
#[derive(Clone, Copy, Debug, PartialEq, Eq, Structural)]
pub enum Published {
    /// The service is up and the sender is here.
    Sender,
    /// The service could not be started.
    Failure { error: InitError },
    /// The thread ended without a word.
    Nothing,
}

/// The action that follows `action`, given whether `action` succeeded.
pub open spec fn after(action: StartAction, ok: bool) -> StartAction {
    match action {
        StartAction::CreateLoop => if ok {
            StartAction::AddMachine
        } else {
            StartAction::Abort { error: InitError::Reactor }
        },
        StartAction::AddMachine => if ok {
            StartAction::OpenEngine
        } else {
            StartAction::Abort { error: InitError::Reactor }
        },
        StartAction::OpenEngine => if ok {
            StartAction::Publish
        } else {
            StartAction::Abort { error: InitError::Engine }
        },
        StartAction::Publish => if ok {
            StartAction::Run
        } else {
            StartAction::Stop
        },
        StartAction::Run => StartAction::Stop,
        StartAction::Abort { error } => StartAction::Stop,
        StartAction::Stop => StartAction::Stop,
    }
}

/// The action that is due after the actions so far have come out as `oks`
/// says, in order.
pub open spec fn due(oks: Seq<bool>) -> StartAction
    decreases oks.len(),
{
    if oks.len() == 0 {
        StartAction::CreateLoop
    } else {
        after(due(oks.drop_last()), oks.last())
    }
}

/// What starting comes to for the one who builds the handle: `spawned`
/// says whether the reactor thread could be spawned, `published` what
/// the thread then said.
pub open spec fn outcome(spawned: bool, published: Published) -> Result<(), InitError> {
    if !spawned {
        Err(InitError::Spawn)
    } else {
        match published {
            Published::Sender => Ok(()),
            Published::Failure { error } => Err(error),
            Published::Nothing => Err(InitError::Reactor),
        }
    }
}

impl StartAction {
    /// The first action of a start.
    pub fn first() -> (action: StartAction)
        ensures
            action == due(Seq::<bool>::empty()),
            action == StartAction::CreateLoop,
    {
        StartAction::CreateLoop
    }

    /// The action that follows this one, given whether this one succeeded.
    pub fn next(self, ok: bool) -> (action: StartAction)
        ensures
            action == after(self, ok),
    {
        match self {
            StartAction::CreateLoop => if ok {
                StartAction::AddMachine
            } else {
                StartAction::Abort { error: InitError::Reactor }
            },
            StartAction::AddMachine => if ok {
                StartAction::OpenEngine
            } else {
                StartAction::Abort { error: InitError::Reactor }
            },
            StartAction::OpenEngine => if ok {
                StartAction::Publish
            } else {
                StartAction::Abort { error: InitError::Engine }
            },
            StartAction::Publish => if ok {
                StartAction::Run
            } else {
                StartAction::Stop
            },
            _ => StartAction::Stop,
        }
    }
}

/// What starting comes to for the one who builds the handle.
pub fn start_outcome(spawned: bool, published: Published) -> (r: Result<(), InitError>)
    ensures
        r == outcome(spawned, published),
{
    if !spawned {
        return Err(InitError::Spawn);
    }
    match published {
        Published::Sender => Ok(()),
        Published::Failure { error } => Err(error),
        Published::Nothing => Err(InitError::Reactor),
    }
}

/// The first `n` outcomes of `oks` are all successes.
pub open spec fn all_ok(oks: Seq<bool>, n: int) -> bool {
    forall|i: int| 0 <= i < n ==> oks[i]
}

proof fn lemma_due_unfold(oks: Seq<bool>)
    requires
        oks.len() > 0,
    ensures
        due(oks) == after(due(oks.drop_last()), oks.last()),
{
}

/// The action that is due depends on how far the start has come: while
/// all goes well the actions follow each other in their order, the first
/// failure aborts the start with the error of its stage, and after that,
/// or after the run, nothing is left to do.
pub proof fn law_start_order(oks: Seq<bool>)
    ensures
        oks.len() == 0 ==> due(oks) == StartAction::CreateLoop,
        oks.len() == 1 ==> due(oks) == if oks[0] {
            StartAction::AddMachine
        } else {
            StartAction::Abort { error: InitError::Reactor }
        },
        oks.len() == 2 ==> due(oks) == if !oks[0] {
            StartAction::Stop
        } else if oks[1] {
            StartAction::OpenEngine
        } else {
            StartAction::Abort { error: InitError::Reactor }
        },
        oks.len() == 3 ==> due(oks) == if !all_ok(oks, 2) {
            StartAction::Stop
        } else if oks[2] {
            StartAction::Publish
        } else {
            StartAction::Abort { error: InitError::Engine }
        },
        oks.len() == 4 ==> due(oks) == if all_ok(oks, 4) {
            StartAction::Run
        } else {
            StartAction::Stop
        },
        oks.len() >= 5 ==> due(oks) == StartAction::Stop,
    decreases oks.len(),
{
    if oks.len() > 0 {
        let front = oks.drop_last();
        law_start_order(front);
        lemma_due_unfold(oks);
        assert forall|i: int| 0 <= i < front.len() implies front[i] == oks[i] by {}
        if oks.len() == 3 {
            assert(all_ok(oks, 2) == (oks[0] && oks[1]));
        }
        if oks.len() == 4 {
            assert(all_ok(front, 2) == (oks[0] && oks[1]));
            assert(all_ok(oks, 4) == (oks[0] && oks[1] && oks[2] && oks[3]));
        }
        if oks.len() == 5 {
            assert(all_ok(front, 4) == (oks[0] && oks[1] && oks[2] && oks[3]));
        }
    }
}

/// The sender is published only when the reactor, the machine and the
/// engine are up, and the reactor runs only after the sender was
/// published.
pub proof fn law_publish_comes_last(oks: Seq<bool>)
    ensures
        due(oks) == StartAction::Publish <==> oks.len() == 3 && all_ok(oks, 3),
        due(oks) == StartAction::Run <==> oks.len() == 4 && all_ok(oks, 4),
{
    law_start_order(oks);
    if oks.len() == 3 {
        assert(all_ok(oks, 3) == (all_ok(oks, 2) && oks[2]));
    }
}

/// A start that cannot be carried through is aborted with the error of
/// the stage that failed, and the handle's builder gets that error.
pub proof fn law_failed_start_is_reported(oks: Seq<bool>, error: InitError)
    requires
        due(oks) == (StartAction::Abort { error }),
    ensures
        1 <= oks.len() <= 3,
        all_ok(oks, oks.len() - 1),
        !oks.last(),
        error == if oks.len() == 3 {
            InitError::Engine
        } else {
            InitError::Reactor
        },
        outcome(true, Published::Failure { error }) == Err::<(), InitError>(error),
{
    law_start_order(oks);
}

} // verus!
