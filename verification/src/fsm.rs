//! The state machine that lives on the reactor thread. Each trigger of the
//! reactor is one transition: from the state and the trigger to the next
//! state and the one effect that the reactor thread is to carry out.

use crate::message::{is_valid_host, valid_host, Interest, Msg, ResolveError, Socket, SOCKET_BAD};
use crate::registry::{apply_watch, watch_for, Registry, Watch};
use vstd::prelude::*;

verus! {

/// What the reactor thread is to do after a transition.
#[derive(Debug, PartialEq, Eq)]
pub enum Effect<C> {
    /// Nothing: the trigger means nothing in this state.
    Idle,
    /// The machine has come up: hand the sending side of the channel to
    /// the handle that is being built.
    Publish,
    /// A wakeup found no message: note it and go back to waiting.
    Spurious,
    /// Start a lookup of `host` with `cb` as its completion.
    StartLookup { host: String, cb: C },
    /// Complete `cb` with `error` without asking the engine.
    Fail { cb: C, error: ResolveError },
    /// Follow `watch` at the reactor, then let the engine process the
    /// socket in the given directions.
    SocketState { sock: Socket, readable: bool, writable: bool, watch: Watch },
    /// Let the engine process a socket that became ready.
    SocketReady { sock: Socket, readable: bool, writable: bool },
    /// A socket became ready that is not watched: note it, nothing else.
    UnknownSocket { sock: Socket },
    /// Let the engine process its timeouts.
    Timeout,
    /// Stop the reactor.
    Shutdown,
    /// The message came when the machine was not running: it is handed
    /// back unprocessed, its callback, if any, not invoked.
    Discarded { msg: Msg<C> },
}

impl<C> Effect<C> {
    /// Whether the effect hands a request's callback on for completion.
    pub open spec fn completes(&self) -> bool {
        self is StartLookup || self is Fail
    }

    /// Whether the effect reaches the engine or the reactor at all.
    pub open spec fn acts(&self) -> bool {
        !(self is Idle || self is Spurious || self is UnknownSocket || self is Discarded)
    }
}

/// The state of the machine as contracts see it.
pub enum FsmView {
    /// Not yet created; it will have room for `limit` sockets.
    Initializing { limit: nat },
    /// Serving, with `sockets` watched and room for `limit` of them.
    Running { sockets: Map<Socket, Interest>, limit: nat },
    /// Stopped for good.
    Terminal,
}

/// Creation: an initializing machine starts running with no socket watched.
pub open spec fn create_step<C>(v: FsmView) -> (FsmView, Effect<C>) {
    match v {
        FsmView::Initializing { limit } => (
            FsmView::Running { sockets: Map::empty(), limit },
            Effect::Publish,
        ),
        _ => (v, Effect::Idle),
    }
}

/// A wakeup that found `msg` on the queue.
pub open spec fn wakeup_step<C>(v: FsmView, msg: Option<Msg<C>>) -> (FsmView, Effect<C>) {
    match msg {
        None => (v, Effect::Spurious),
        Some(m) => match v {
            FsmView::Running { sockets, limit } => match m {
                Msg::Resolve { host, cb } => if valid_host(host@) {
                    (v, Effect::StartLookup { host, cb })
                } else {
                    (v, Effect::Fail { cb, error: ResolveError::Unresolvable })
                },
                Msg::SocketEvent { sock, readable, writable } => {
                    let watch = watch_for(sockets, limit, sock, Interest { readable, writable });
                    (
                        FsmView::Running { sockets: apply_watch(sockets, watch), limit },
                        Effect::SocketState { sock, readable, writable, watch },
                    )
                },
                Msg::Quit => (FsmView::Terminal, Effect::Shutdown),
            },
            _ => (v, Effect::Discarded { msg: m }),
        },
    }
}

/// The reactor found `sock` ready.
pub open spec fn ready_step<C>(v: FsmView, sock: Socket, readable: bool, writable: bool) -> (
    FsmView,
    Effect<C>,
) {
    match v {
        FsmView::Running { sockets, limit } => if sockets.dom().contains(sock) {
            (v, Effect::SocketReady { sock, readable, writable })
        } else {
            (v, Effect::UnknownSocket { sock })
        },
        _ => (v, Effect::Idle),
    }
}

/// The reactor's timer fired.
pub open spec fn timeout_step<C>(v: FsmView) -> (FsmView, Effect<C>) {
    match v {
        FsmView::Running { sockets, limit } => (v, Effect::Timeout),
        _ => (v, Effect::Idle),
    }
}

/// One wakeup for each message of `msgs`, in order: the state at the end
/// and the effects along the way.
pub open spec fn run<C>(v: FsmView, msgs: Seq<Msg<C>>) -> (FsmView, Seq<Effect<C>>)
    decreases msgs.len(),
{
    if msgs.len() == 0 {
        (v, Seq::empty())
    } else {
        let before = run(v, msgs.drop_last());
        let step = wakeup_step(before.0, Some(msgs.last()));
        (step.0, before.1.push(step.1))
    }
}

/// A wakeup that found `msgs` on the queue, all of which are taken in: with
/// no message it is a spurious wakeup, else one step for each message.
pub open spec fn drain_step<C>(v: FsmView, msgs: Seq<Msg<C>>) -> (FsmView, Seq<Effect<C>>) {
    if msgs.len() == 0 {
        (v, seq![Effect::Spurious])
    } else {
        run(v, msgs)
    }
}

/// The effects of finding each socket of `socks` ready, in order.
pub open spec fn ready_effects<C>(socks: Seq<Socket>, readable: bool, writable: bool) -> Seq<
    Effect<C>,
> {
    Seq::new(socks.len(), |i: int| Effect::SocketReady { sock: socks[i], readable, writable })
}

/// The table of a running machine is finite, within its limit, without the
/// bad socket, and watches each of its sockets in some direction.
pub open spec fn within_limit(v: FsmView) -> bool {
    match v {
        FsmView::Running { sockets, limit } => {
            &&& sockets.dom().finite()
            &&& sockets.dom().len() <= limit
            &&& !sockets.dom().contains(SOCKET_BAD)
            &&& forall|s: Socket| sockets.dom().contains(s) ==> !(#[trigger] sockets[s]).is_none()
        },
        _ => true,
    }
}

/// The state machine of the reactor thread.
pub enum ResolveFsm {
    /// Not yet created.
    Initializing { max_sockets: usize },
    /// Serving requests.
    Running { sockets: Registry },
    /// Stopped for good.
    Terminal,
}

/// A transition's outcome: the next state and what is to be done.
pub struct Step<C> {
    pub next: ResolveFsm,
    pub effect: Effect<C>,
}

impl View for ResolveFsm {
    type V = FsmView;

    open spec fn view(&self) -> FsmView {
        match self {
            ResolveFsm::Initializing { max_sockets } => FsmView::Initializing {
                limit: *max_sockets as nat,
            },
            ResolveFsm::Running { sockets } => FsmView::Running {
                sockets: sockets@,
                limit: sockets.limit(),
            },
            ResolveFsm::Terminal => FsmView::Terminal,
        }
    }
}

impl ResolveFsm {
    /// A machine that waits to be created, with room for `max_sockets` sockets.
    pub fn new(max_sockets: usize) -> (fsm: ResolveFsm)
        ensures
            fsm@ == (FsmView::Initializing { limit: max_sockets as nat }),
    {
        ResolveFsm::Initializing { max_sockets }
    }

    /// Whether the machine serves requests.
    pub fn is_running(&self) -> (b: bool)
        ensures
            b == (self@ is Running),
    {
        match self {
            ResolveFsm::Running { .. } => true,
            _ => false,
        }
    }

    /// Whether the machine has stopped for good.
    pub fn is_terminal(&self) -> (b: bool)
        ensures
            b == (self@ is Terminal),
    {
        match self {
            ResolveFsm::Terminal => true,
            _ => false,
        }
    }

    /// The step that leaves the machine as it is.
    fn unchanged<C>(self, effect: Effect<C>) -> (step: Step<C>)
        ensures
            step.next@ == self@,
            step.effect == effect,
            within_limit(self@),
    {
        match self {
            ResolveFsm::Running { sockets } => {
                proof {
                    use_type_invariant(&sockets);
                    sockets.lemma_bounded();
                }
                Step { next: ResolveFsm::Running { sockets }, effect }
            },
            other => Step { next: other, effect },
        }
    }

    /// The reactor creates the machine.
    pub fn create<C>(self) -> (step: Step<C>)
        ensures
            (step.next@, step.effect) == create_step::<C>(self@),
            within_limit(self@),
            within_limit(step.next@),
    {
        match self {
            ResolveFsm::Initializing { max_sockets } => Step {
                next: ResolveFsm::Running { sockets: Registry::new(max_sockets) },
                effect: Effect::Publish,
            },
            ResolveFsm::Running { sockets } => {
                proof {
                    use_type_invariant(&sockets);
                    sockets.lemma_bounded();
                }
                Step { next: ResolveFsm::Running { sockets }, effect: Effect::Idle }
            },
            ResolveFsm::Terminal => Step { next: ResolveFsm::Terminal, effect: Effect::Idle },
        }
    }

    /// The reactor woke the machine up, and `msg` is what the queue then
    /// gave: a message, or nothing.
    pub fn wakeup<C>(self, msg: Option<Msg<C>>) -> (step: Step<C>)
        ensures
            (step.next@, step.effect) == wakeup_step(self@, msg),
            within_limit(self@),
            within_limit(step.next@),
    {
        let msg = match msg {
            Some(m) => m,
            None => {
                return self.unchanged(Effect::Spurious);
            },
        };
        match self {
            ResolveFsm::Running { sockets } => {
                proof {
                    use_type_invariant(&sockets);
                    sockets.lemma_bounded();
                }
                match msg {
                    Msg::Resolve { host, cb } => {
                        let effect = if is_valid_host(host.as_str()) {
                            Effect::StartLookup { host, cb }
                        } else {
                            Effect::Fail { cb, error: ResolveError::Unresolvable }
                        };
                        Step { next: ResolveFsm::Running { sockets }, effect }
                    },
                    Msg::SocketEvent { sock, readable, writable } => {
                        let mut sockets = sockets;
                        let watch = sockets.update(sock, Interest { readable, writable });
                        Step {
                            next: ResolveFsm::Running { sockets },
                            effect: Effect::SocketState { sock, readable, writable, watch },
                        }
                    },
                    Msg::Quit => Step { next: ResolveFsm::Terminal, effect: Effect::Shutdown },
                }
            },
            other => other.unchanged(Effect::Discarded { msg }),
        }
    }

    /// The reactor found `sock` ready in the given directions.
    pub fn ready<C>(self, sock: Socket, readable: bool, writable: bool) -> (step: Step<C>)
        ensures
            (step.next@, step.effect) == ready_step::<C>(self@, sock, readable, writable),
            within_limit(self@),
            within_limit(step.next@),
    {
        match self {
            ResolveFsm::Running { sockets } => {
                proof {
                    use_type_invariant(&sockets);
                    sockets.lemma_bounded();
                }
                let effect = if sockets.contains(sock) {
                    Effect::SocketReady { sock, readable, writable }
                } else {
                    Effect::UnknownSocket { sock }
                };
                Step { next: ResolveFsm::Running { sockets }, effect }
            },
            other => other.unchanged(Effect::Idle),
        }
    }

    /// The reactor's timer fired.
    pub fn timeout<C>(self) -> (step: Step<C>)
        ensures
            (step.next@, step.effect) == timeout_step::<C>(self@),
            within_limit(self@),
            within_limit(step.next@),
    {
        if self.is_running() {
            self.unchanged(Effect::Timeout)
        } else {
            self.unchanged(Effect::Idle)
        }
    }

    /// The reactor found readiness without saying of which socket: every
    /// watched socket is processed, each once, in no promised order. A
    /// machine that is not running has nothing to process.
    pub fn ready_all<C>(self, readable: bool, writable: bool) -> (out: (ResolveFsm, Vec<Effect<C>>))
        ensures
            out.0@ == self@,
            within_limit(self@),
            !(self@ is Running) ==> out.1@.len() == 0,
            self@ is Running ==> exists|socks: Seq<Socket>|
                socks.no_duplicates() && socks.to_set() == self@->Running_sockets.dom()
                    && #[trigger] ready_effects::<C>(socks, readable, writable) == out.1@,
    {
        match self {
            ResolveFsm::Running { sockets } => {
                proof {
                    use_type_invariant(&sockets);
                    sockets.lemma_bounded();
                }
                let socks = sockets.sockets();
                let mut effects: Vec<Effect<C>> = Vec::new();
                let mut i: usize = 0;
                while i < socks.len()
                    invariant
                        i <= socks@.len(),
                        effects@.len() == i,
                        forall|j: int|
                            0 <= j < i ==> effects@[j] == (Effect::<C>::SocketReady {
                                sock: socks@[j],
                                readable,
                                writable,
                            }),
                    decreases socks@.len() - i,
                {
                    effects.push(Effect::SocketReady { sock: socks[i], readable, writable });
                    i = i + 1;
                }
                proof {
                    assert(ready_effects::<C>(socks@, readable, writable) =~= effects@);
                }
                (ResolveFsm::Running { sockets }, effects)
            },
            other => (other, Vec::new()),
        }
    }

    /// The reactor woke the machine up and `msgs` is all that the queue
    /// then held, in order. Each message is taken in as one wakeup; an
    /// empty queue is a spurious wakeup.
    pub fn drain<C>(self, msgs: Vec<Msg<C>>) -> (out: (ResolveFsm, Vec<Effect<C>>))
        ensures
            (out.0@, out.1@) == drain_step(self@, msgs@),
            within_limit(self@),
            within_limit(out.0@),
    {
        if msgs.len() == 0 {
            let step = self.wakeup::<C>(None);
            let mut effects: Vec<Effect<C>> = Vec::new();
            effects.push(step.effect);
            proof {
                assert(effects@ =~= seq![Effect::<C>::Spurious]);
            }
            return (step.next, effects);
        }
        let ghost start = self@;
        let ghost all = msgs@;
        let mut fsm = self.unchanged::<C>(Effect::Idle).next;
        let mut effects: Vec<Effect<C>> = Vec::new();
        for msg in it: msgs.into_iter()
            invariant
                within_limit(fsm@),
                it.seq() == all,
                (fsm@, effects@) == run(start, all.subrange(0, it.index() as int)),
        {
            proof {
                let upto = all.subrange(0, it.index() + 1);
                assert(upto.drop_last() =~= all.subrange(0, it.index() as int));
                assert(upto.last() == msg);
            }
            let step = fsm.wakeup(Some(msg));
            fsm = step.next;
            effects.push(step.effect);
        }
        proof {
            assert(all.subrange(0, all.len() as int) =~= all);
        }
        (fsm, effects)
    }
}

} // verus!
