use dns_bridge::fsm::{Effect, ResolveFsm, Step};
use dns_bridge::message::{Interest, Msg, ResolveError, SOCKET_BAD};
use dns_bridge::registry::Watch;

const READ: Interest = Interest { readable: true, writable: false };

fn running(max_sockets: usize) -> ResolveFsm {
    let Step { next, effect } = ResolveFsm::new(max_sockets).create::<u32>();
    assert_eq!(effect, Effect::Publish);
    next
}

fn socket_event(sock: i64, readable: bool, writable: bool) -> Msg<u32> {
    Msg::SocketEvent { sock, readable, writable }
}

fn resolve(host: &str, cb: u32) -> Msg<u32> {
    Msg::Resolve { host: host.to_string(), cb }
}

#[test]
fn new_machine_is_initializing() {
    let fsm = ResolveFsm::new(4);
    assert!(!fsm.is_running());
    assert!(!fsm.is_terminal());
    assert!(matches!(fsm, ResolveFsm::Initializing { max_sockets: 4 }));
}

#[test]
fn creation_starts_the_machine_and_publishes_the_sender() {
    let step = ResolveFsm::new(4).create::<u32>();
    assert_eq!(step.effect, Effect::Publish);
    assert!(step.next.is_running());
    match step.next {
        ResolveFsm::Running { sockets } => {
            assert_eq!(sockets.len(), 0);
            assert_eq!(sockets.capacity(), 4);
        }
        _ => panic!("the machine is not running"),
    }
}

#[test]
fn creation_of_a_running_machine_changes_nothing() {
    let fsm = running(4).wakeup(Some(socket_event(3, true, false))).next;
    let step = fsm.create::<u32>();
    assert_eq!(step.effect, Effect::Idle);
    match step.next {
        ResolveFsm::Running { sockets } => assert_eq!(sockets.get(3), Some(READ)),
        _ => panic!("the machine is not running"),
    }
}

#[test]
fn request_starts_a_lookup_with_its_callback() {
    let step = running(4).wakeup(Some(resolve("example.org", 17)));
    assert_eq!(step.effect, Effect::StartLookup { host: "example.org".to_string(), cb: 17 });
    assert!(step.next.is_running());
}

#[test]
fn request_for_an_empty_host_fails_through_its_callback() {
    let step = running(4).wakeup(Some(resolve("", 17)));
    assert_eq!(step.effect, Effect::Fail { cb: 17, error: ResolveError::Unresolvable });
    assert!(step.next.is_running());
}

#[test]
fn socket_event_registers_and_is_forwarded() {
    let step = running(4).wakeup(Some(socket_event(6, true, false)));
    assert_eq!(
        step.effect,
        Effect::SocketState {
            sock: 6,
            readable: true,
            writable: false,
            watch: Watch::Register { sock: 6, interest: READ },
        }
    );
    match step.next {
        ResolveFsm::Running { sockets } => assert_eq!(sockets.get(6), Some(READ)),
        _ => panic!("the machine is not running"),
    }
}

#[test]
fn socket_event_without_direction_deregisters() {
    let fsm = running(4).wakeup(Some(socket_event(6, true, true))).next;
    let step = fsm.wakeup(Some(socket_event(6, false, false)));
    assert_eq!(
        step.effect,
        Effect::SocketState {
            sock: 6,
            readable: false,
            writable: false,
            watch: Watch::Deregister { sock: 6 },
        }
    );
    match step.next {
        ResolveFsm::Running { sockets } => assert_eq!(sockets.len(), 0),
        _ => panic!("the machine is not running"),
    }
}

#[test]
fn socket_event_beyond_the_limit_is_rejected() {
    let fsm = running(1).wakeup(Some(socket_event(1, true, false))).next;
    let step = fsm.wakeup(Some(socket_event(2, true, false)));
    assert_eq!(
        step.effect,
        Effect::SocketState {
            sock: 2,
            readable: true,
            writable: false,
            watch: Watch::Rejected { sock: 2 },
        }
    );
    match step.next {
        ResolveFsm::Running { sockets } => {
            assert_eq!(sockets.len(), 1);
            assert!(!sockets.contains(2));
        }
        _ => panic!("the machine is not running"),
    }
}

#[test]
fn socket_event_for_the_bad_socket_registers_nothing() {
    let step = running(4).wakeup(Some(socket_event(SOCKET_BAD, true, true)));
    assert_eq!(
        step.effect,
        Effect::SocketState { sock: SOCKET_BAD, readable: true, writable: true, watch: Watch::Keep }
    );
}

#[test]
fn quit_stops_the_machine() {
    let step = running(4).wakeup::<u32>(Some(Msg::Quit));
    assert_eq!(step.effect, Effect::Shutdown);
    assert!(step.next.is_terminal());
    assert!(!step.next.is_running());
}

#[test]
fn spurious_wakeup_changes_nothing() {
    let fsm = running(4).wakeup(Some(socket_event(6, true, false))).next;
    let step = fsm.wakeup::<u32>(None);
    assert_eq!(step.effect, Effect::Spurious);
    match step.next {
        ResolveFsm::Running { sockets } => assert_eq!(sockets.get(6), Some(READ)),
        _ => panic!("the machine is not running"),
    }
}

#[test]
fn many_spurious_wakeups_leave_the_machine_running() {
    let mut fsm = running(4);
    for _ in 0..1000 {
        let step = fsm.wakeup::<u32>(None);
        assert_eq!(step.effect, Effect::Spurious);
        fsm = step.next;
    }
    assert!(fsm.is_running());
    let step = fsm.wakeup(Some(resolve("example.org", 1)));
    assert_eq!(step.effect, Effect::StartLookup { host: "example.org".to_string(), cb: 1 });
}

#[test]
fn spurious_wakeup_before_creation_and_after_quit() {
    let step = ResolveFsm::new(4).wakeup::<u32>(None);
    assert_eq!(step.effect, Effect::Spurious);
    assert!(matches!(step.next, ResolveFsm::Initializing { max_sockets: 4 }));
    let step = ResolveFsm::Terminal.wakeup::<u32>(None);
    assert_eq!(step.effect, Effect::Spurious);
    assert!(step.next.is_terminal());
}

#[test]
fn message_before_creation_is_handed_back() {
    let step = ResolveFsm::new(4).wakeup(Some(resolve("example.org", 5)));
    assert_eq!(step.effect, Effect::Discarded { msg: resolve("example.org", 5) });
    assert!(matches!(step.next, ResolveFsm::Initializing { max_sockets: 4 }));
}

#[test]
fn terminal_machine_hands_every_message_back() {
    for msg in [resolve("example.org", 5), socket_event(3, true, false), Msg::Quit] {
        let expected = match &msg {
            Msg::Resolve { host, cb } => Msg::Resolve { host: host.clone(), cb: *cb },
            Msg::SocketEvent { sock, readable, writable } => {
                Msg::SocketEvent { sock: *sock, readable: *readable, writable: *writable }
            }
            Msg::Quit => Msg::Quit,
        };
        let step = ResolveFsm::Terminal.wakeup(Some(msg));
        assert_eq!(step.effect, Effect::Discarded { msg: expected });
        assert!(step.next.is_terminal());
    }
}

#[test]
fn terminal_machine_ignores_the_reactor() {
    let step = ResolveFsm::Terminal.ready::<u32>(3, true, true);
    assert_eq!(step.effect, Effect::Idle);
    assert!(step.next.is_terminal());
    let step = ResolveFsm::Terminal.timeout::<u32>();
    assert_eq!(step.effect, Effect::Idle);
    assert!(step.next.is_terminal());
    let step = ResolveFsm::Terminal.create::<u32>();
    assert_eq!(step.effect, Effect::Idle);
    assert!(step.next.is_terminal());
    let (next, effects) = ResolveFsm::Terminal.ready_all::<u32>(true, true);
    assert!(effects.is_empty());
    assert!(next.is_terminal());
}

#[test]
fn ready_socket_is_forwarded_to_the_engine() {
    let fsm = running(4).wakeup(Some(socket_event(6, true, false))).next;
    let step = fsm.ready::<u32>(6, true, false);
    assert_eq!(step.effect, Effect::SocketReady { sock: 6, readable: true, writable: false });
    assert!(step.next.is_running());
}

#[test]
fn ready_event_for_an_unwatched_socket_is_a_no_op() {
    let fsm = running(4).wakeup(Some(socket_event(6, true, false))).next;
    let step = fsm.ready::<u32>(7, true, false);
    assert_eq!(step.effect, Effect::UnknownSocket { sock: 7 });
    match step.next {
        ResolveFsm::Running { sockets } => {
            assert_eq!(sockets.len(), 1);
            assert_eq!(sockets.get(6), Some(READ));
        }
        _ => panic!("the machine is not running"),
    }
}

#[test]
fn ready_event_after_the_socket_closed_is_a_no_op() {
    let fsm = running(4).wakeup(Some(socket_event(6, true, false))).next;
    let fsm = fsm.wakeup(Some(socket_event(6, false, false))).next;
    let step = fsm.ready::<u32>(6, true, false);
    assert_eq!(step.effect, Effect::UnknownSocket { sock: 6 });
}

#[test]
fn ready_before_creation_is_ignored() {
    let step = ResolveFsm::new(4).ready::<u32>(6, true, false);
    assert_eq!(step.effect, Effect::Idle);
    let step = ResolveFsm::new(4).timeout::<u32>();
    assert_eq!(step.effect, Effect::Idle);
}

#[test]
fn ready_all_processes_each_watched_socket_once() {
    let mut fsm = running(4);
    for sock in [4, 8, 15] {
        fsm = fsm.wakeup(Some(socket_event(sock, true, true))).next;
    }
    let (next, effects) = fsm.ready_all::<u32>(true, false);
    assert!(next.is_running());
    let mut socks: Vec<i64> = effects
        .iter()
        .map(|e| match e {
            Effect::SocketReady { sock, readable: true, writable: false } => *sock,
            other => panic!("unexpected effect {:?}", other),
        })
        .collect();
    socks.sort();
    assert_eq!(socks, vec![4, 8, 15]);
}

#[test]
fn ready_all_without_sockets_does_nothing() {
    let (next, effects) = running(4).ready_all::<u32>(true, true);
    assert!(effects.is_empty());
    assert!(next.is_running());
}

#[test]
fn timeout_is_forwarded_to_the_engine() {
    let step = running(4).timeout::<u32>();
    assert_eq!(step.effect, Effect::Timeout);
    assert!(step.next.is_running());
}

#[test]
fn drain_takes_messages_in_order() {
    let msgs = vec![resolve("a.example", 1), socket_event(3, true, false), resolve("b.example", 2)];
    let (next, effects) = running(4).drain(msgs);
    assert!(next.is_running());
    assert_eq!(
        effects,
        vec![
            Effect::StartLookup { host: "a.example".to_string(), cb: 1 },
            Effect::SocketState {
                sock: 3,
                readable: true,
                writable: false,
                watch: Watch::Register { sock: 3, interest: READ },
            },
            Effect::StartLookup { host: "b.example".to_string(), cb: 2 },
        ]
    );
}

#[test]
fn drain_of_an_empty_queue_is_a_spurious_wakeup() {
    let (next, effects) = running(4).drain::<u32>(Vec::new());
    assert_eq!(effects, vec![Effect::Spurious]);
    assert!(next.is_running());
}

#[test]
fn drain_processes_nothing_after_quit() {
    let msgs = vec![
        resolve("a.example", 1),
        Msg::Quit,
        resolve("b.example", 2),
        socket_event(3, true, false),
        Msg::Quit,
    ];
    let (next, effects) = running(4).drain(msgs);
    assert!(next.is_terminal());
    assert_eq!(
        effects,
        vec![
            Effect::StartLookup { host: "a.example".to_string(), cb: 1 },
            Effect::Shutdown,
            Effect::Discarded { msg: resolve("b.example", 2) },
            Effect::Discarded { msg: socket_event(3, true, false) },
            Effect::Discarded { msg: Msg::Quit },
        ]
    );
}

#[test]
fn every_request_gets_exactly_one_completion() {
    let n = 200u32;
    let msgs: Vec<Msg<u32>> = (0..n).map(|i| resolve(&format!("host{}.example", i), i)).collect();
    let (next, effects) = running(4).drain(msgs);
    assert!(next.is_running());
    assert_eq!(effects.len(), n as usize);
    for (i, effect) in effects.into_iter().enumerate() {
        assert_eq!(
            effect,
            Effect::StartLookup { host: format!("host{}.example", i), cb: i as u32 }
        );
    }
}

#[test]
fn sockets_never_exceed_the_limit_under_a_burst() {
    let msgs: Vec<Msg<u32>> = (0..40).map(|s| socket_event(s, true, false)).collect();
    let (next, effects) = running(5).drain(msgs);
    let rejected = effects
        .iter()
        .filter(|e| matches!(e, Effect::SocketState { watch: Watch::Rejected { .. }, .. }))
        .count();
    assert_eq!(rejected, 35);
    match next {
        ResolveFsm::Running { sockets } => {
            assert_eq!(sockets.len(), 5);
            assert_eq!(sockets.capacity(), 5);
        }
        _ => panic!("the machine is not running"),
    }
}
