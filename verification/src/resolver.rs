//! The caller's side of the bridge: the handle through which requests are
//! submitted, the two-step hand-over of a message to the reactor thread, and
//! the teardown of the service.

use crate::config::{Config, EngineOptions};
use crate::fsm::{FsmView, ResolveFsm};
use crate::message::Msg;
use vstd::prelude::*;

verus! {

/// Why the service could not be started.
#[derive(Clone, Copy, Debug, PartialEq, Eq, Structural)]
pub enum InitError {
    /// A field of the configuration is zero, or the bound on sockets does
    /// not fit the machine's word.
    InvalidConfig,
    /// The reactor could not be set up.
    Reactor,
    /// The resolution engine could not be set up.
    Engine,
    /// The reactor thread could not be spawned.
    Spawn,
}

/// The channel to the reactor thread is closed: the service is shutting
/// down or has shut down.
#[derive(Clone, Copy, Debug, PartialEq, Eq, Structural)]
pub struct ChannelClosedError {}

/// A request that was turned away. Host and callback come back as they
/// were given; the callback has not been invoked and never will be by the
/// bridge.
#[derive(Debug, PartialEq, Eq)]
pub struct Rejected<C> {
    pub error: ChannelClosedError,
    pub host: String,
    pub cb: C,
}

/// What went wrong with the reactor thread, as found at teardown. It is
/// to be recorded, never returned to the one who tears down.
#[derive(Clone, Copy, Debug, PartialEq, Eq, Structural)]
pub enum ShutdownJoinError {
    /// The thread was gone before it could be told to quit.
    AlreadyExited,
    /// The thread ended abnormally.
    Panicked,
}

/// How the reactor thread ended, as joining it showed.
#[derive(Clone, Copy, Debug, PartialEq, Eq, Structural)]
pub enum JoinOutcome {
    Clean,
    Panicked,
}

/// The reactor's answer to a wakeup signal.
#[derive(Clone, Copy, Debug, PartialEq, Eq, Structural)]
pub enum Wake {
    /// The signal was taken.
    Woken,
    /// The notification queue is full: signals are already pending.
    Full,
    /// The signal was queued but the reactor could not be roused at once.
    Io,
    /// The reactor has shut down.
    Closed,
}

/// Where the handle stands in its life.
#[derive(Clone, Copy, Debug, PartialEq, Eq, Structural)]
pub enum HandleState {
    /// Requests are taken.
    Open,
    /// Teardown has begun; the reactor thread is not joined yet.
    Closing,
    /// The reactor thread is joined.
    Closed,
}

/// What submitting a request comes to on a handle in `state`: while the
/// handle is open the request is accepted, as the message to send; from
/// the beginning of teardown on it is rejected, untouched.
pub open spec fn submit<C>(state: HandleState, host: String, cb: C) -> Result<Msg<C>, Rejected<C>> {
    if state == HandleState::Open {
        Ok(Msg::Resolve { host, cb })
    } else {
        Err(Rejected { error: ChannelClosedError {  }, host, cb })
    }
}

/// The state of a handle after teardown began on it in `state`.
pub open spec fn begun(state: HandleState) -> HandleState {
    if state == HandleState::Open {
        HandleState::Closing
    } else {
        state
    }
}

/// The state of a handle after teardown ended on it in `state`.
pub open spec fn finished(state: HandleState) -> HandleState {
    if state == HandleState::Closing {
        HandleState::Closed
    } else {
        state
    }
}

/// What a send comes to, given the queue's and the reactor's answers: the
/// message is delivered unless the queue had lost its receiver or the
/// reactor had shut down.
pub open spec fn delivered(queued: bool, wake: Wake) -> bool {
    queued && wake != Wake::Closed
}

/// What teardown has to record, given whether the quit message reached
/// the queue and how the thread ended.
pub open spec fn join_report(quit_queued: bool, joined: JoinOutcome) -> Option<ShutdownJoinError> {
    if joined == JoinOutcome::Panicked {
        Some(ShutdownJoinError::Panicked)
    } else if !quit_queued {
        Some(ShutdownJoinError::AlreadyExited)
    } else {
        None
    }
}

/// The obligation to signal a wakeup, incurred by a message that the queue
/// has taken. It is discharged by `woken`.
#[must_use]
#[derive(Debug)]
pub struct WakeDue {
    owed: (),
}

impl WakeDue {
    /// Discharges the obligation with the reactor's answer to the signal.
    /// The send has failed only if the reactor had shut down: in every
    /// other case the message will be read.
    pub fn woken(self, wake: Wake) -> (r: Result<(), ChannelClosedError>)
        ensures
            r.is_ok() == delivered(true, wake),
    {
        match wake {
            Wake::Closed => Err(ChannelClosedError {  }),
            _ => Ok(()),
        }
    }
}

/// The order of a send: the message is offered to the queue first, and
/// each message that the queue took is followed by a wakeup signal.
#[derive(Clone, Copy, Debug)]
pub struct MsgSender {}

impl MsgSender {
    /// The first step of a send, after the message was offered to the
    /// queue: `queued` says whether the queue took it. If it did, a wakeup
    /// is due; if not, the channel is closed and no wakeup is signalled.
    pub fn send(&self, queued: bool) -> (r: Result<WakeDue, ChannelClosedError>)
        ensures
            r.is_ok() == queued,
    {
        if queued {
            Ok(WakeDue { owed: () })
        } else {
            Err(ChannelClosedError {  })
        }
    }
}

/// What is needed to start the service.
#[derive(Clone, Copy, Debug, PartialEq, Eq, Structural)]
pub struct StartPlan {
    /// How many state machines the reactor has room for.
    pub slab_capacity: usize,
    /// How many wakeup signals the reactor can hold.
    pub notify_capacity: usize,
    /// The engine's settings.
    pub engine: EngineOptions,
}

/// The handle that callers hold.
pub struct Resolver {
    cfg: Config,
    state: HandleState,
}

impl Resolver {
    /// The configuration of a handle is valid.
    #[verifier::type_invariant]
    spec fn wf(&self) -> bool {
        self.cfg.valid()
    }

    /// The configuration that the handle was made with.
    pub closed spec fn config(&self) -> Config {
        self.cfg
    }

    /// Where the handle stands in its life.
    pub closed spec fn state(&self) -> HandleState {
        self.state
    }

    /// What starting the service under `cfg` takes.
    pub open spec fn plan_for(cfg: Config) -> StartPlan {
        StartPlan {
            slab_capacity: cfg.max_sockets as usize,
            notify_capacity: cfg.max_sockets as usize,
            engine: cfg.engine(),
        }
    }

    /// An open handle for a valid configuration; an invalid one is refused.
    pub fn new(cfg: Config) -> (r: Result<Resolver, InitError>)
        ensures
            match r {
                Ok(h) => cfg.valid() && h.config() == cfg && h.state() == HandleState::Open,
                Err(e) => !cfg.valid() && e == InitError::InvalidConfig,
            },
    {
        if cfg.is_valid() {
            Ok(Resolver { cfg, state: HandleState::Open })
        } else {
            Err(InitError::InvalidConfig)
        }
    }

    /// The configuration that the handle was made with. It is valid.
    pub fn cfg(&self) -> (cfg: &Config)
        ensures
            *cfg == self.config(),
            cfg.valid(),
    {
        proof {
            use_type_invariant(self);
        }
        &self.cfg
    }

    /// Whether requests are still taken.
    pub fn is_open(&self) -> (b: bool)
        ensures
            b == (self.state() == HandleState::Open),
    {
        self.state == HandleState::Open
    }

    /// What starting the service takes: room for as many machines and
    /// wakeup signals as there may be sockets, and the engine's settings.
    pub fn plan(&self) -> (plan: StartPlan)
        ensures
            self.config().valid(),
            plan == Self::plan_for(self.config()),
            plan.slab_capacity == self.config().max_sockets,
            plan.notify_capacity == self.config().max_sockets,
    {
        proof {
            use_type_invariant(self);
        }
        let n: usize = self.cfg.max_sockets as usize;
        StartPlan { slab_capacity: n, notify_capacity: n, engine: self.cfg.engine_options() }
    }

    /// The state machine for the reactor thread, waiting to be created.
    pub fn machine(&self) -> (fsm: ResolveFsm)
        ensures
            fsm@ == (FsmView::Initializing { limit: self.config().max_sockets as nat }),
    {
        proof {
            use_type_invariant(self);
        }
        ResolveFsm::new(self.cfg.max_sockets as usize)
    }

    /// Submits a request. While the handle is open every request is
    /// accepted and comes back as the message to send; once teardown has
    /// begun every request is rejected, and its callback handed back.
    pub fn resolve<C>(&self, host: String, cb: C) -> (r: Result<Msg<C>, Rejected<C>>)
        ensures
            r == submit(self.state(), host, cb),
    {
        if self.is_open() {
            Ok(Msg::Resolve { host, cb })
        } else {
            Err(Rejected { error: ChannelClosedError {  }, host, cb })
        }
    }

    /// Begins teardown. The first call on an open handle closes it and
    /// returns the quit message to send; any later call returns nothing.
    pub fn begin_teardown<C>(&mut self) -> (quit: Option<Msg<C>>)
        ensures
            final(self).config() == old(self).config(),
            final(self).state() == begun(old(self).state()),
            quit == if old(self).state() == HandleState::Open {
                Some(Msg::<C>::Quit)
            } else {
                None
            },
    {
        proof {
            use_type_invariant(&*self);
        }
        if self.is_open() {
            self.state = HandleState::Closing;
            Some(Msg::Quit)
        } else {
            None
        }
    }

    /// Ends teardown after the reactor thread was joined. Returns what is
    /// to be recorded about the thread, if anything; teardown itself never
    /// fails. On a handle that is not closing nothing happens.
    pub fn finish_teardown(&mut self, quit_queued: bool, joined: JoinOutcome) -> (report: Option<
        ShutdownJoinError,
    >)
        ensures
            final(self).config() == old(self).config(),
            final(self).state() == finished(old(self).state()),
            report == if old(self).state() == HandleState::Closing {
                join_report(quit_queued, joined)
            } else {
                None
            },
    {
        proof {
            use_type_invariant(&*self);
        }
        if self.state == HandleState::Closing {
            self.state = HandleState::Closed;
            match joined {
                JoinOutcome::Panicked => Some(ShutdownJoinError::Panicked),
                JoinOutcome::Clean => if quit_queued {
                    None
                } else {
                    Some(ShutdownJoinError::AlreadyExited)
                },
            }
        } else {
            None
        }
    }
}

} // verus!
