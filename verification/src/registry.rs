//! The socket interest bridge: the table of sockets that the reactor watches
//! on the engine's behalf, and the decision what to tell the reactor when the
//! engine changes its mind about one of them.

use crate::message::{Interest, Socket, SOCKET_BAD};
use vstd::prelude::*;

verus! {

/// What the reactor is to be told after the engine reported on a socket.
#[derive(Clone, Copy, Debug, PartialEq, Eq, Structural)]
pub enum Watch {
    /// Nothing changes.
    Keep,
    /// Start watching a socket that was not watched.
    Register { sock: Socket, interest: Interest },
    /// Watch an already watched socket in other directions.
    Reregister { sock: Socket, interest: Interest },
    /// Stop watching a socket.
    Deregister { sock: Socket },
    /// The table is full: the socket is not watched.
    Rejected { sock: Socket },
}

/// The instruction that follows from the engine's report `interest` on
/// `sock`, given the registrations `regs` and room for `limit` of them.
pub open spec fn watch_for(
    regs: Map<Socket, Interest>,
    limit: nat,
    sock: Socket,
    interest: Interest,
) -> Watch {
    if sock == SOCKET_BAD {
        Watch::Keep
    } else if interest.is_none() {
        if regs.dom().contains(sock) {
            Watch::Deregister { sock }
        } else {
            Watch::Keep
        }
    } else if regs.dom().contains(sock) {
        if regs[sock] == interest {
            Watch::Keep
        } else {
            Watch::Reregister { sock, interest }
        }
    } else if regs.dom().len() < limit {
        Watch::Register { sock, interest }
    } else {
        Watch::Rejected { sock }
    }
}

/// The registrations after the instruction `w` has been followed.
pub open spec fn apply_watch(regs: Map<Socket, Interest>, w: Watch) -> Map<Socket, Interest> {
    match w {
        Watch::Keep => regs,
        Watch::Rejected { sock } => regs,
        Watch::Register { sock, interest } => regs.insert(sock, interest),
        Watch::Reregister { sock, interest } => regs.insert(sock, interest),
        Watch::Deregister { sock } => regs.remove(sock),
    }
}

/// One watched socket.
struct Registration {
    sock: Socket,
    interest: Interest,
}

/// The sockets of `entries`, in order.
spec fn socks_of(entries: Seq<Registration>) -> Seq<Socket> {
    entries.map_values(|r: Registration| r.sock)
}

/// The registrations that `entries` stand for.
spec fn regs_of(entries: Seq<Registration>) -> Map<Socket, Interest> {
    Map::new(
        |s: Socket| socks_of(entries).contains(s),
        |s: Socket| entries[socks_of(entries).index_of(s)].interest,
    )
}

/// No socket occurs twice in `entries`, none is the bad socket, and each
/// is watched in at least one direction.
spec fn entries_ok(entries: Seq<Registration>) -> bool {
    &&& socks_of(entries).no_duplicates()
    &&& forall|i: int|
        0 <= i < entries.len() ==> (#[trigger] entries[i]).sock != SOCKET_BAD
            && !entries[i].interest.is_none()
}

/// In well-formed entries, the entry at `k` is what the registrations hold
/// for its socket.
proof fn lemma_regs_at(entries: Seq<Registration>, k: int)
    requires
        socks_of(entries).no_duplicates(),
        0 <= k < entries.len(),
    ensures
        regs_of(entries).dom().contains(entries[k].sock),
        regs_of(entries)[entries[k].sock] == entries[k].interest,
{
    let socks = socks_of(entries);
    assert(socks[k] == entries[k].sock);
    assert(socks.contains(entries[k].sock));
    let j = socks.index_of(entries[k].sock);
    assert(0 <= j < socks.len() && socks[j] == entries[k].sock);
    assert(j == k);
}

/// The registrations are as many as the entries.
proof fn lemma_regs_len(entries: Seq<Registration>)
    requires
        socks_of(entries).no_duplicates(),
    ensures
        regs_of(entries).dom().finite(),
        regs_of(entries).dom().len() == entries.len(),
{
    let socks = socks_of(entries);
    vstd::seq_lib::seq_to_set_is_finite(socks);
    socks.unique_seq_to_set();
    assert(regs_of(entries).dom() =~= socks.to_set());
}

/// A socket that no entry names is not registered.
proof fn lemma_regs_absent(entries: Seq<Registration>, sock: Socket)
    requires
        forall|i: int| 0 <= i < entries.len() ==> (#[trigger] entries[i]).sock != sock,
    ensures
        !regs_of(entries).dom().contains(sock),
{
    let socks = socks_of(entries);
    if socks.contains(sock) {
        let j = socks.index_of(sock);
        assert(socks[j] == entries[j].sock);
    }
}

/// Appending an entry for a new socket inserts it.
proof fn lemma_regs_push(entries: Seq<Registration>, r: Registration)
    requires
        entries_ok(entries),
        !regs_of(entries).dom().contains(r.sock),
        r.sock != SOCKET_BAD,
        !r.interest.is_none(),
    ensures
        entries_ok(entries.push(r)),
        regs_of(entries.push(r)) == regs_of(entries).insert(r.sock, r.interest),
{
    let after = entries.push(r);
    let socks = socks_of(entries);
    let socks2 = socks_of(after);
    assert(socks2 =~= socks.push(r.sock));
    assert forall|i: int, j: int|
        0 <= i < socks2.len() && 0 <= j < socks2.len() && i != j implies socks2[i] != socks2[j] by {
        if i < socks.len() && j < socks.len() {
            assert(socks[i] != socks[j]);
        } else if i < socks.len() {
            assert(socks.contains(socks[i]));
        } else {
            assert(socks.contains(socks[j]));
        }
    }
    assert forall|i: int| 0 <= i < after.len() implies (#[trigger] after[i]).sock != SOCKET_BAD
        && !after[i].interest.is_none() by {
        if i < entries.len() {
            assert(after[i] == entries[i]);
        }
    }
    let m1 = regs_of(after);
    let m2 = regs_of(entries).insert(r.sock, r.interest);
    assert forall|s: Socket| m1.dom().contains(s) <==> m2.dom().contains(s) by {
        if socks2.contains(s) {
            let j = socks2.index_of(s);
            if j < socks.len() {
                assert(socks[j] == s);
            }
        }
        if socks.contains(s) {
            let j = socks.index_of(s);
            assert(socks2[j] == s);
        }
        if s == r.sock {
            assert(socks2[entries.len() as int] == s);
        }
    }
    assert forall|s: Socket| m1.dom().contains(s) implies m1[s] == m2[s] by {
        let j = socks2.index_of(s);
        lemma_regs_at(after, j);
        if j < entries.len() {
            assert(after[j] == entries[j]);
            lemma_regs_at(entries, j);
        }
    }
    assert(m1 =~= m2);
}

/// Replacing the interest of the entry at `k` updates its socket.
proof fn lemma_regs_update(entries: Seq<Registration>, k: int, interest: Interest)
    requires
        entries_ok(entries),
        0 <= k < entries.len(),
        !interest.is_none(),
    ensures
        entries_ok(entries.update(k, Registration { sock: entries[k].sock, interest })),
        regs_of(entries.update(k, Registration { sock: entries[k].sock, interest })) == regs_of(
            entries,
        ).insert(entries[k].sock, interest),
{
    let r = Registration { sock: entries[k].sock, interest };
    let after = entries.update(k, r);
    let socks = socks_of(entries);
    let socks2 = socks_of(after);
    assert(socks2 =~= socks) by {
        assert forall|i: int| 0 <= i < socks.len() implies socks2[i] == socks[i] by {
            if i != k {
                assert(after[i] == entries[i]);
            }
        }
    }
    assert forall|i: int| 0 <= i < after.len() implies (#[trigger] after[i]).sock != SOCKET_BAD
        && !after[i].interest.is_none() by {
        if i != k {
            assert(after[i] == entries[i]);
        } else {
            assert(entries[k].sock != SOCKET_BAD);
        }
    }
    let m1 = regs_of(after);
    let m2 = regs_of(entries).insert(entries[k].sock, interest);
    lemma_regs_at(entries, k);
    assert forall|s: Socket| m1.dom().contains(s) implies m1[s] == m2[s] by {
        let j = socks2.index_of(s);
        lemma_regs_at(after, j);
        if j != k {
            assert(after[j] == entries[j]);
            lemma_regs_at(entries, j);
            assert(socks[j] != socks[k]);
        }
    }
    assert(m1 =~= m2);
}

/// Taking the entry at `k` out removes its socket.
proof fn lemma_regs_remove(entries: Seq<Registration>, k: int)
    requires
        entries_ok(entries),
        0 <= k < entries.len(),
    ensures
        entries_ok(entries.remove(k)),
        regs_of(entries.remove(k)) == regs_of(entries).remove(entries[k].sock),
{
    let after = entries.remove(k);
    let socks = socks_of(entries);
    let socks2 = socks_of(after);
    entries.remove_ensures(k);
    assert forall|i: int| 0 <= i < after.len() implies after[i] == entries[if i < k {
        i
    } else {
        i + 1
    }] by {}
    assert forall|i: int| 0 <= i < socks2.len() implies socks2[i] == socks[if i < k {
        i
    } else {
        i + 1
    }] by {
        assert(socks2[i] == after[i].sock);
    }
    assert forall|i: int, j: int|
        0 <= i < socks2.len() && 0 <= j < socks2.len() && i != j implies socks2[i] != socks2[j] by {
        let a = if i < k { i } else { i + 1 };
        let b = if j < k { j } else { j + 1 };
        assert(socks[a] != socks[b]);
    }
    assert forall|i: int| 0 <= i < after.len() implies (#[trigger] after[i]).sock != SOCKET_BAD
        && !after[i].interest.is_none() by {
        let a = if i < k { i } else { i + 1 };
        assert(after[i] == entries[a]);
    }
    let gone = entries[k].sock;
    let m1 = regs_of(after);
    let m2 = regs_of(entries).remove(gone);
    assert forall|s: Socket| m1.dom().contains(s) <==> m2.dom().contains(s) by {
        if socks2.contains(s) {
            let j = socks2.index_of(s);
            let a = if j < k { j } else { j + 1 };
            assert(socks[a] == s);
            assert(socks[a] != socks[k]);
            assert(socks.contains(s));
        }
        if socks.contains(s) && s != gone {
            let a = socks.index_of(s);
            assert(a != k);
            let j = if a < k { a } else { a - 1 };
            assert(socks2[j] == s);
        }
    }
    assert forall|s: Socket| m1.dom().contains(s) implies m1[s] == m2[s] by {
        let j = socks2.index_of(s);
        let a = if j < k { j } else { j + 1 };
        lemma_regs_at(after, j);
        assert(after[j] == entries[a]);
        lemma_regs_at(entries, a);
    }
    assert(m1 =~= m2);
}

/// The table of watched sockets, with room for a fixed number of them.
pub struct Registry {
    entries: Vec<Registration>,
    cap: usize,
}

impl Registry {
    /// The table holds no socket twice and no more sockets than it has room for.
    #[verifier::type_invariant]
    pub(crate) closed spec fn wf(&self) -> bool {
        &&& entries_ok(self.entries@)
        &&& self.entries@.len() <= self.cap
    }

    /// The watched sockets, each with the directions it is watched in.
    pub closed spec fn view(&self) -> Map<Socket, Interest> {
        regs_of(self.entries@)
    }

    /// How many sockets the table has room for.
    pub closed spec fn limit(&self) -> nat {
        self.cap as nat
    }

    /// What holds of the registrations of every table: they are finite
    /// and within the limit, the bad socket is not among them, and each
    /// socket is watched in some direction.
    pub open spec fn bounded(&self) -> bool {
        &&& self@.dom().finite()
        &&& self@.dom().len() <= self.limit()
        &&& !self@.dom().contains(SOCKET_BAD)
        &&& forall|s: Socket| self@.dom().contains(s) ==> !(#[trigger] self@[s]).is_none()
    }

    /// A well-formed table is bounded.
    pub(crate) proof fn lemma_bounded(&self)
        requires
            self.wf(),
        ensures
            self.bounded(),
    {
        lemma_regs_len(self.entries@);
        lemma_regs_absent(self.entries@, SOCKET_BAD);
        assert forall|s: Socket| self@.dom().contains(s) implies !(#[trigger] self@[s]).is_none() by {
            let j = socks_of(self.entries@).index_of(s);
            lemma_regs_at(self.entries@, j);
        }
    }

    /// An empty table with room for `cap` sockets.
    pub fn new(cap: usize) -> (r: Registry)
        ensures
            r@ == Map::<Socket, Interest>::empty(),
            r.limit() == cap,
            r.bounded(),
    {
        let r = Registry { entries: Vec::new(), cap };
        proof {
            assert(r@ =~= Map::<Socket, Interest>::empty());
            r.lemma_bounded();
        }
        r
    }

    /// The number of watched sockets.
    pub fn len(&self) -> (n: usize)
        ensures
            n == self@.dom().len(),
            n <= self.limit(),
            self.bounded(),
    {
        proof {
            use_type_invariant(self);
            self.lemma_bounded();
            lemma_regs_len(self.entries@);
        }
        self.entries.len()
    }

    /// How many sockets the table has room for.
    pub fn capacity(&self) -> (n: usize)
        ensures
            n == self.limit(),
    {
        self.cap
    }

    /// Takes the entries out, to be put back changed; the table is empty
    /// meanwhile.
    fn take_entries(&mut self) -> (entries: Vec<Registration>)
        ensures
            entries@ == old(self).entries@,
            final(self).entries@.len() == 0,
            final(self).cap == old(self).cap,
    {
        let mut entries: Vec<Registration> = Vec::new();
        std::mem::swap(&mut entries, &mut self.entries);
        entries
    }

    /// Where `sock` stands in the table, if it does.
    fn position(&self, sock: Socket) -> (at: Option<usize>)
        ensures
            match at {
                Some(i) => i < self.entries@.len() && self.entries@[i as int].sock == sock,
                None => forall|i: int|
                    0 <= i < self.entries@.len() ==> (#[trigger] self.entries@[i]).sock != sock,
            },
    {
        let mut i: usize = 0;
        while i < self.entries.len()
            invariant
                i <= self.entries@.len(),
                forall|j: int| 0 <= j < i ==> (#[trigger] self.entries@[j]).sock != sock,
            decreases self.entries@.len() - i,
        {
            if self.entries[i].sock == sock {
                return Some(i);
            }
            i = i + 1;
        }
        None
    }

    /// The directions in which `sock` is watched, if it is watched at all.
    pub fn get(&self, sock: Socket) -> (found: Option<Interest>)
        ensures
            found == if self@.dom().contains(sock) {
                Some(self@[sock])
            } else {
                None
            },
    {
        proof {
            use_type_invariant(self);
        }
        match self.position(sock) {
            Some(i) => {
                proof {
                    lemma_regs_at(self.entries@, i as int);
                }
                Some(self.entries[i].interest)
            },
            None => {
                proof {
                    lemma_regs_absent(self.entries@, sock);
                }
                None
            },
        }
    }

    /// Whether `sock` is watched.
    pub fn contains(&self, sock: Socket) -> (b: bool)
        ensures
            b == self@.dom().contains(sock),
    {
        self.get(sock).is_some()
    }

    /// Takes in the engine's report that `sock` is to be watched in the
    /// directions of `interest`, or, with no direction, not at all. Returns
    /// what the reactor is to be told. A new socket that finds the table
    /// full is rejected and the table stays as it is.
    pub fn update(&mut self, sock: Socket, interest: Interest) -> (w: Watch)
        ensures
            final(self).limit() == old(self).limit(),
            w == watch_for(old(self)@, old(self).limit(), sock, interest),
            final(self)@ == apply_watch(old(self)@, w),
            old(self).bounded(),
            final(self).bounded(),
    {
        proof {
            use_type_invariant(&*self);
            self.lemma_bounded();
            lemma_regs_len(self.entries@);
        }
        if sock == SOCKET_BAD {
            return Watch::Keep;
        }
        let at = self.position(sock);
        match at {
            Some(i) => {
                proof {
                    lemma_regs_at(self.entries@, i as int);
                }
                let current = self.entries[i].interest;
                if interest.is_empty() {
                    proof {
                        lemma_regs_remove(self.entries@, i as int);
                    }
                    let mut entries = self.take_entries();
                    entries.remove(i);
                    self.entries = entries;
                    proof {
                        self.lemma_bounded();
                    }
                    Watch::Deregister { sock }
                } else if current == interest {
                    Watch::Keep
                } else {
                    proof {
                        lemma_regs_update(self.entries@, i as int, interest);
                    }
                    let mut entries = self.take_entries();
                    entries.set(i, Registration { sock, interest });
                    self.entries = entries;
                    proof {
                        self.lemma_bounded();
                    }
                    Watch::Reregister { sock, interest }
                }
            },
            None => {
                proof {
                    lemma_regs_absent(self.entries@, sock);
                }
                if interest.is_empty() {
                    Watch::Keep
                } else if self.entries.len() < self.cap {
                    proof {
                        lemma_regs_push(self.entries@, Registration { sock, interest });
                    }
                    let mut entries = self.take_entries();
                    entries.push(Registration { sock, interest });
                    self.entries = entries;
                    proof {
                        self.lemma_bounded();
                    }
                    Watch::Register { sock, interest }
                } else {
                    Watch::Rejected { sock }
                }
            },
        }
    }

    /// The watched sockets, each once.
    pub fn sockets(&self) -> (out: Vec<Socket>)
        ensures
            out@.no_duplicates(),
            out@.to_set() == self@.dom(),
            out@.len() == self@.dom().len(),
    {
        proof {
            use_type_invariant(self);
        }
        let mut out: Vec<Socket> = Vec::new();
        let mut i: usize = 0;
        while i < self.entries.len()
            invariant
                i <= self.entries@.len(),
                out@ == socks_of(self.entries@).subrange(0, i as int),
            decreases self.entries@.len() - i,
        {
            out.push(self.entries[i].sock);
            proof {
                assert(out@ =~= socks_of(self.entries@).subrange(0, i + 1));
            }
            i = i + 1;
        }
        proof {
            assert(out@ =~= socks_of(self.entries@));
            assert(self@.dom() =~= out@.to_set());
            lemma_regs_len(self.entries@);
        }
        out
    }
}

} // verus!
