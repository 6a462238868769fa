//! What holds of the bridge as a whole: laws that relate several of its
//! functions, each proved from the definitions that the functions' own
//! contracts use.

use crate::fsm::{
    create_step, ready_step, run, timeout_step, wakeup_step, within_limit, Effect, FsmView,
};
use crate::message::{valid_host, Interest, Msg, ResolveError, Socket, SOCKET_BAD};
use crate::reactor::{interest_kinds, kinds_interest};
use crate::registry::{apply_watch, watch_for, Watch};
use crate::resolver::{begun, finished, submit, HandleState, Rejected};
use vstd::prelude::*;

verus! {

/// The effect that completes the request of `host` and `cb` on a running
/// machine: a lookup, or for a host that cannot be looked up a failure at
/// once.
pub open spec fn completion<C>(host: String, cb: C) -> Effect<C> {
    if valid_host(host@) {
        Effect::StartLookup { host, cb }
    } else {
        Effect::Fail { cb, error: ResolveError::Unresolvable }
    }
}

/// How many messages of `msgs` are requests.
pub open spec fn count_requests<C>(msgs: Seq<Msg<C>>) -> nat
    decreases msgs.len(),
{
    if msgs.len() == 0 {
        0
    } else {
        count_requests(msgs.drop_last()) + if msgs.last() is Resolve {
            1nat
        } else {
            0nat
        }
    }
}

/// How many effects of `effects` hand a callback on for completion.
pub open spec fn count_completions<C>(effects: Seq<Effect<C>>) -> nat
    decreases effects.len(),
{
    if effects.len() == 0 {
        0
    } else {
        count_completions(effects.drop_last()) + if effects.last().completes() {
            1nat
        } else {
            0nat
        }
    }
}

/// A request submitted on an open handle is accepted, and a running
/// machine that receives it hands its callback on for completion: to the
/// engine, or for an empty host to a failure.
pub proof fn law_accepted_request_is_completed<C>(
    v: FsmView,
    host: String,
    cb: C,
)
    requires
        v is Running,
    ensures
        submit(HandleState::Open, host, cb) == Ok::<Msg<C>, Rejected<C>>(Msg::Resolve { host, cb }),
        wakeup_step(v, Some(Msg::Resolve { host, cb })) == (v, completion(host, cb)),
        valid_host(host@) ==> completion(host, cb) == (Effect::StartLookup { host, cb }),
{
}

/// Every message taken in gives exactly one effect.
pub proof fn law_one_effect_per_message<C>(v: FsmView, msgs: Seq<Msg<C>>)
    ensures
        run(v, msgs).1.len() == msgs.len(),
    decreases msgs.len(),
{
    if msgs.len() > 0 {
        law_one_effect_per_message(v, msgs.drop_last());
    }
}

/// The effect of the message at `i` is that of one wakeup in the state
/// that the messages before it have led to.
pub proof fn law_run_step<C>(v: FsmView, msgs: Seq<Msg<C>>, i: int)
    requires
        0 <= i < msgs.len(),
    ensures
        run(v, msgs).1.len() == msgs.len(),
        run(v, msgs).1[i] == wakeup_step(run(v, msgs.subrange(0, i)).0, Some(msgs[i])).1,
    decreases msgs.len(),
{
    law_one_effect_per_message(v, msgs);
    law_one_effect_per_message(v, msgs.drop_last());
    if i == msgs.len() - 1 {
        assert(msgs.drop_last() =~= msgs.subrange(0, i));
    } else {
        law_run_step(v, msgs.drop_last(), i);
        assert(msgs.drop_last().subrange(0, i) =~= msgs.subrange(0, i));
    }
}

/// A running machine goes on running, with the same limit, as long as no
/// message tells it to quit.
pub proof fn law_runs_until_quit<C>(v: FsmView, msgs: Seq<Msg<C>>)
    requires
        v is Running,
        forall|j: int| 0 <= j < msgs.len() ==> !(#[trigger] msgs[j] is Quit),
    ensures
        run(v, msgs).0 is Running,
        run(v, msgs).0->Running_limit == v->Running_limit,
    decreases msgs.len(),
{
    if msgs.len() > 0 {
        let front = msgs.drop_last();
        assert forall|j: int| 0 <= j < front.len() implies !(#[trigger] front[j] is Quit) by {
            assert(front[j] == msgs[j]);
        }
        law_runs_until_quit(v, front);
        assert(!(msgs[msgs.len() - 1] is Quit));
    }
}

/// A machine that is not running never starts running by taking messages
/// in, and hands each of them back unprocessed.
pub proof fn law_stopped_machine_discards<C>(v: FsmView, msgs: Seq<Msg<C>>, i: int)
    requires
        !(v is Running),
        0 <= i < msgs.len(),
    ensures
        run(v, msgs).0 == v,
        run(v, msgs).1[i] == (Effect::Discarded { msg: msgs[i] }),
    decreases msgs.len(),
{
    lemma_stopped_stays(v, msgs);
    lemma_stopped_stays(v, msgs.subrange(0, i));
    law_run_step(v, msgs, i);
}

proof fn lemma_stopped_stays<C>(v: FsmView, msgs: Seq<Msg<C>>)
    requires
        !(v is Running),
    ensures
        run(v, msgs).0 == v,
    decreases msgs.len(),
{
    if msgs.len() > 0 {
        lemma_stopped_stays(v, msgs.drop_last());
    }
}

/// While no message before it tells the machine to quit, each request is
/// completed by the effect of its own position, with its own callback.
pub proof fn law_each_request_is_completed<C>(v: FsmView, msgs: Seq<Msg<C>>, i: int)
    requires
        v is Running,
        0 <= i < msgs.len(),
        forall|j: int| 0 <= j < i ==> !(#[trigger] msgs[j] is Quit),
        msgs[i] is Resolve,
    ensures
        run(v, msgs).1[i] == completion(msgs[i]->host, msgs[i]->cb),
        run(v, msgs).1[i].completes(),
{
    let front = msgs.subrange(0, i);
    assert forall|j: int| 0 <= j < front.len() implies !(#[trigger] front[j] is Quit) by {
        assert(front[j] == msgs[j]);
    }
    law_runs_until_quit(v, front);
    law_run_step(v, msgs, i);
}

/// No callback is completed but that of a request, by the effect of the
/// request's own position: none is made up, none is completed twice.
pub proof fn law_only_requests_are_completed<C>(v: FsmView, msgs: Seq<Msg<C>>, i: int)
    requires
        0 <= i < msgs.len(),
    ensures
        run(v, msgs).1[i].completes() ==> msgs[i] is Resolve && run(v, msgs).1[i] == completion(
            msgs[i]->host,
            msgs[i]->cb,
        ),
{
    law_run_step(v, msgs, i);
}

/// Of a running machine that is not told to quit, the completions are as
/// many as the requests.
pub proof fn law_as_many_completions_as_requests<C>(v: FsmView, msgs: Seq<Msg<C>>)
    requires
        v is Running,
        forall|j: int| 0 <= j < msgs.len() ==> !(#[trigger] msgs[j] is Quit),
    ensures
        count_completions(run(v, msgs).1) == count_requests(msgs),
    decreases msgs.len(),
{
    if msgs.len() > 0 {
        let front = msgs.drop_last();
        assert forall|j: int| 0 <= j < front.len() implies !(#[trigger] front[j] is Quit) by {
            assert(front[j] == msgs[j]);
        }
        law_as_many_completions_as_requests(v, front);
        law_runs_until_quit(v, front);
        let before = run(v, front);
        let step = wakeup_step(before.0, Some(msgs.last()));
        assert(run(v, msgs).1 == before.1.push(step.1));
        assert(before.1.push(step.1).drop_last() =~= before.1);
        assert(!(msgs[msgs.len() - 1] is Quit));
    }
}

/// Once a message has told the machine to quit, whatever state it was in,
/// every later message is handed back unprocessed: nothing reaches the
/// engine or the reactor, and no callback is completed.
pub proof fn law_nothing_after_quit<C>(v: FsmView, msgs: Seq<Msg<C>>, q: int, i: int)
    requires
        0 <= q < i < msgs.len(),
        msgs[q] is Quit,
    ensures
        run(v, msgs).1[i] == (Effect::Discarded { msg: msgs[i] }),
        !run(v, msgs).1[i].acts(),
        !run(v, msgs).1[i].completes(),
        !(run(v, msgs).0 is Running),
{
    let upto = msgs.subrange(0, q + 1);
    let rest = msgs.subrange(q + 1, msgs.len() as int);
    assert(upto + rest =~= msgs);
    assert(upto.last() == msgs[q]);
    let stopped = run(v, upto).0;
    assert(!(stopped is Running));
    lemma_run_concat(v, upto, rest);
    law_one_effect_per_message(v, upto);
    law_one_effect_per_message(stopped, rest);
    law_stopped_machine_discards(stopped, rest, i - q - 1);
    assert(rest[i - q - 1] == msgs[i]);
    assert(run(v, msgs).1[i] == run(stopped, rest).1[i - q - 1]);
}

proof fn lemma_run_concat<C>(v: FsmView, a: Seq<Msg<C>>, b: Seq<Msg<C>>)
    ensures
        run(v, a + b).0 == run(run(v, a).0, b).0,
        run(v, a + b).1 == run(v, a).1 + run(run(v, a).0, b).1,
    decreases b.len(),
{
    if b.len() == 0 {
        assert(a + b =~= a);
        assert(run(v, a).1 + Seq::<Effect<C>>::empty() =~= run(v, a).1);
    } else {
        lemma_run_concat(v, a, b.drop_last());
        assert((a + b).drop_last() =~= a + b.drop_last());
        assert((a + b).last() == b.last());
        let mid = run(v, a);
        let inner = run(mid.0, b.drop_last());
        let step = wakeup_step(inner.0, Some(b.last()));
        assert((mid.1 + inner.1).push(step.1) =~= mid.1 + inner.1.push(step.1));
    }
}

/// The terminal state is final: no trigger leaves it, and in it no trigger
/// reaches the engine or the reactor or completes a callback.
pub proof fn law_terminal_is_final<C>(
    msg: Option<Msg<C>>,
    sock: Socket,
    readable: bool,
    writable: bool,
)
    ensures
        create_step::<C>(FsmView::Terminal) == (FsmView::Terminal, Effect::<C>::Idle),
        timeout_step::<C>(FsmView::Terminal) == (FsmView::Terminal, Effect::<C>::Idle),
        ready_step::<C>(FsmView::Terminal, sock, readable, writable) == (
            FsmView::Terminal,
            Effect::<C>::Idle,
        ),
        wakeup_step(FsmView::Terminal, msg).0 == FsmView::Terminal,
        !wakeup_step(FsmView::Terminal, msg).1.acts(),
        !wakeup_step(FsmView::Terminal, msg).1.completes(),
{
}

/// A wakeup that finds no message changes nothing, in any state.
pub proof fn law_spurious_wakeup_changes_nothing<C>(v: FsmView)
    ensures
        wakeup_step::<C>(v, None) == (v, Effect::<C>::Spurious),
{
}

/// Only the quit message stops a running machine, and only creation
/// starts one.
pub proof fn law_phase_changes<C>(
    v: FsmView,
    msg: Option<Msg<C>>,
    sock: Socket,
    readable: bool,
    writable: bool,
)
    ensures
        (create_step::<C>(v).0 is Running) == (v is Initializing || v is Running),
        v is Running ==> ((wakeup_step(v, msg).0 is Terminal) == (msg == Some(Msg::<C>::Quit))),
        !(v is Running) ==> wakeup_step(v, msg).0 == v,
        ready_step::<C>(v, sock, readable, writable).0 == v,
        timeout_step::<C>(v).0 == v,
{
}

/// From the beginning of teardown on, no request is accepted: each comes
/// back rejected, with its host and its callback untouched. Teardown is
/// never undone.
pub proof fn law_no_request_after_teardown<C>(state: HandleState, host: String, cb: C)
    ensures
        begun(state) != HandleState::Open,
        finished(begun(state)) != HandleState::Open,
        submit(begun(state), host, cb) is Err,
        submit(finished(begun(state)), host, cb) is Err,
        submit(begun(state), host, cb)->Err_0.host == host,
        submit(begun(state), host, cb)->Err_0.cb == cb,
        state != HandleState::Open ==> begun(state) == state && finished(state)
            != HandleState::Open,
{
}

/// Whatever the engine reports, the table stays finite and within its
/// limit. A socket is rejected exactly when it is new, wanted in some
/// direction, and the table is full; the table then stays as it was.
pub proof fn law_table_stays_within_limit(
    regs: Map<Socket, Interest>,
    limit: nat,
    sock: Socket,
    interest: Interest,
)
    requires
        regs.dom().finite(),
        regs.dom().len() <= limit,
    ensures
        apply_watch(regs, watch_for(regs, limit, sock, interest)).dom().finite(),
        apply_watch(regs, watch_for(regs, limit, sock, interest)).dom().len() <= limit,
        (watch_for(regs, limit, sock, interest) is Rejected) == (sock != SOCKET_BAD
            && !interest.is_none() && !regs.dom().contains(sock) && regs.dom().len() >= limit),
        watch_for(regs, limit, sock, interest) is Rejected ==> apply_watch(
            regs,
            watch_for(regs, limit, sock, interest),
        ) == regs,
{
    let w = watch_for(regs, limit, sock, interest);
    match w {
        Watch::Reregister { sock, interest } => {
            assert(regs.insert(sock, interest).dom() =~= regs.dom());
        },
        _ => {},
    }
}

/// After the engine's report on a socket, the socket is watched exactly in
/// the directions reported, unless it is the bad socket or was rejected.
pub proof fn law_table_follows_engine(
    regs: Map<Socket, Interest>,
    limit: nat,
    sock: Socket,
    interest: Interest,
)
    requires
        sock != SOCKET_BAD,
        !(watch_for(regs, limit, sock, interest) is Rejected),
    ensures
        interest.is_none() ==> !apply_watch(
            regs,
            watch_for(regs, limit, sock, interest),
        ).dom().contains(sock),
        !interest.is_none() ==> apply_watch(
            regs,
            watch_for(regs, limit, sock, interest),
        ).dom().contains(sock) && apply_watch(regs, watch_for(regs, limit, sock, interest))[sock]
            == interest,
        forall|other: Socket|
            other != sock ==> (#[trigger] apply_watch(
                regs,
                watch_for(regs, limit, sock, interest),
            ).dom().contains(other)) == regs.dom().contains(other),
{
}

/// No transition takes a machine's table beyond its limit.
pub proof fn law_machine_stays_within_limit<C>(
    v: FsmView,
    msg: Option<Msg<C>>,
    sock: Socket,
    readable: bool,
    writable: bool,
)
    requires
        within_limit(v),
    ensures
        within_limit(create_step::<C>(v).0),
        within_limit(wakeup_step(v, msg).0),
        within_limit(ready_step::<C>(v, sock, readable, writable).0),
        within_limit(timeout_step::<C>(v).0),
{
    match (v, msg) {
        (FsmView::Running { sockets, limit }, Some(Msg::SocketEvent { sock, readable, writable })) => {
            let interest = Interest { readable, writable };
            law_table_stays_within_limit(sockets, limit, sock, interest);
            let w = watch_for(sockets, limit, sock, interest);
            let after = apply_watch(sockets, w);
            assert forall|s: Socket| after.dom().contains(s) implies !(#[trigger] after[s]).is_none() by {
                if s != sock {
                    assert(sockets.dom().contains(s));
                    assert(after[s] == sockets[s]);
                }
            }
        },
        _ => {},
    }
}

/// However many messages a machine takes in, its table stays within its
/// limit.
pub proof fn law_run_stays_within_limit<C>(v: FsmView, msgs: Seq<Msg<C>>)
    requires
        within_limit(v),
    ensures
        within_limit(run(v, msgs).0),
    decreases msgs.len(),
{
    if msgs.len() > 0 {
        law_run_stays_within_limit(v, msgs.drop_last());
        law_machine_stays_within_limit(
            run(v, msgs.drop_last()).0,
            Some(msgs.last()),
            SOCKET_BAD,
            false,
            false,
        );
    }
}

/// The event set of an interest, read back, is the interest.
pub proof fn law_interest_round_trip(interest: Interest)
    ensures
        kinds_interest(interest_kinds(interest)) == interest,
{
}

} // verus!
