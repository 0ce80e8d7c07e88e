use crate::error::{RussulaError, RussulaResult};
use crate::protocol::{
    opt_vec, plan_announce, step_describes, step_malformed, step_phase, step_reply, PhaseToken,
    Protocol, RussulaPoll, StateApi, StepPlan, StepRule, TransitionStep,
};
use vstd::prelude::*;

verus! {

/// The network address of a peer: an IPv4 address and a TCP port.
#[derive(Debug, Clone, Copy, PartialEq, Eq, Structural)]
pub struct PeerAddr {
    pub ip: u32,
    pub port: u16,
}

/// Peers are ordered by address, then by port.
pub open spec fn addr_lt(a: PeerAddr, b: PeerAddr) -> bool {
    a.ip < b.ip || (a.ip == b.ip && a.port < b.port)
}

pub open spec fn strictly_sorted(s: Seq<PeerAddr>) -> bool {
    forall|i: int, j: int| 0 <= i < j < s.len() ==> addr_lt(#[trigger] s[i], #[trigger] s[j])
}

impl PeerAddr {
    pub fn new(ip: u32, port: u16) -> (r: Self)
        ensures
            r.ip == ip,
            r.port == port,
    {
        PeerAddr { ip, port }
    }

    pub fn precedes(&self, other: &PeerAddr) -> (r: bool)
        ensures
            r == addr_lt(*self, *other),
    {
        self.ip < other.ip || (self.ip == other.ip && self.port < other.port)
    }
}

/// Inserts `a` at its place in a strictly sorted list, unless it is there
/// already.
fn insert_sorted(v: &mut Vec<PeerAddr>, a: PeerAddr)
    requires
        strictly_sorted(old(v)@),
    ensures
        strictly_sorted(final(v)@),
        forall|x: PeerAddr| final(v)@.contains(x) <==> (old(v)@.contains(x) || x == a),
{
    let mut pos: usize = 0;
    while pos < v.len() && v[pos].precedes(&a)
        invariant
            v@ == old(v)@,
            pos <= v@.len(),
            strictly_sorted(v@),
            forall|j: int| 0 <= j < pos ==> addr_lt(#[trigger] v@[j], a),
        decreases v@.len() - pos,
    {
        pos = pos + 1;
    }
    if pos < v.len() && v[pos] == a {
        assert(v@[pos as int] == a);
        return;
    }
    proof {
        assert forall|j: int| pos <= j < v@.len() implies addr_lt(a, #[trigger] v@[j]) by {
            assert(!addr_lt(v@[pos as int], a));
            if j > pos {
                assert(addr_lt(v@[pos as int], v@[j]));
            }
        }
    }
    let ghost before = v@;
    v.insert(pos, a);
    proof {
        assert(v@ =~= before.subrange(0, pos as int).push(a) + before.subrange(
            pos as int,
            before.len() as int,
        ));
        assert forall|x: PeerAddr| v@.contains(x) <==> (before.contains(x) || x == a) by {
            if v@.contains(x) {
                let k = choose|k: int| 0 <= k < v@.len() && v@[k] == x;
                if k < pos {
                    assert(before[k] == x);
                } else if k > pos {
                    assert(before[k - 1] == x);
                }
            }
            if before.contains(x) {
                let k = choose|k: int| 0 <= k < before.len() && before[k] == x;
                if k < pos {
                    assert(v@[k] == x);
                } else {
                    assert(v@[k + 1] == x);
                }
            }
            if x == a {
                assert(v@[pos as int] == x);
            }
        }
        assert(before == old(v)@);
        assert(forall|x: PeerAddr| v@.contains(x) ==> (old(v)@.contains(x) || x == a));
        assert(forall|x: PeerAddr| old(v)@.contains(x) ==> v@.contains(x));
        assert(v@.contains(a));
    }
}

/// One peer session: a peer's address, the protocol instance that tracks
/// it, and whether the session has failed. A failed session never steps
/// again, so it holds any barrier back for good. The connection itself is
/// owned by the caller, one per session.
#[derive(Debug, Clone, Copy)]
pub struct RussulaPeer<P: Protocol> {
    pub addr: PeerAddr,
    pub protocol: P,
    pub faulted: bool,
}

/// The bytes handed to a session's step by an event: a transport error
/// hands nothing.
pub open spec fn event_bytes(ev: RussulaResult<Option<Vec<u8>>>) -> Option<Seq<u8>> {
    match ev {
        Ok(m) => opt_vec(m),
        Err(_) => None,
    }
}

/// Whether a session takes a step in a poll toward `target`.
pub open spec fn session_steps<P: Protocol>(s: RussulaPeer<P>, target: P::State) -> bool {
    !s.faulted && s.protocol.phase() != target
}

/// Whether a poll toward `target` fails the session: a fatal transport
/// error, or a message that is not a token of the peer.
pub open spec fn session_fails<P: Protocol>(
    s: RussulaPeer<P>,
    target: P::State,
    ev: RussulaResult<Option<Vec<u8>>>,
) -> bool {
    &&& session_steps(s, target)
    &&& match ev {
        Err(e) => !(e is NetworkBlocked),
        Ok(m) => step_malformed(s.protocol.phase(), opt_vec(m)),
    }
}

/// The phase of a session after a poll toward `target`.
pub open spec fn session_phase<P: Protocol>(
    s: RussulaPeer<P>,
    target: P::State,
    ev: RussulaResult<Option<Vec<u8>>>,
) -> P::State {
    if session_steps(s, target) && !session_fails(s, target, ev) {
        step_phase(s.protocol.phase(), event_bytes(ev))
    } else {
        s.protocol.phase()
    }
}

/// What a session sends after a poll toward `target`.
pub open spec fn session_reply<P: Protocol>(
    s: RussulaPeer<P>,
    target: P::State,
    ev: RussulaResult<Option<Vec<u8>>>,
) -> Option<Seq<u8>> {
    if session_steps(s, target) && !session_fails(s, target, ev) {
        step_reply(s.protocol.phase(), event_bytes(ev))
    } else {
        None
    }
}

/// Whether `e` is the error with which a poll fails the session.
pub open spec fn session_error<P: Protocol>(
    s: RussulaPeer<P>,
    ev: RussulaResult<Option<Vec<u8>>>,
    e: RussulaError,
) -> bool {
    match ev {
        Err(e0) => e == e0,
        Ok(m) => crate::protocol::malformed(e, opt_vec(m).unwrap()),
    }
}

/// The I/O that a session's next poll toward `target` begins with.
pub open spec fn session_plan<P: Protocol>(s: RussulaPeer<P>, target: P::State) -> (
    Option<Seq<u8>>,
    bool,
) {
    if session_steps(s, target) {
        (plan_announce(s.protocol.phase()), s.protocol.phase().rule() is AwaitPeer)
    } else {
        (None, false)
    }
}

/// Whether a session moves at once when asked for its next phase: it is
/// healthy and its phase is left at the application's request.
pub open spec fn user_moves<P: Protocol>(s: RussulaPeer<P>) -> bool {
    !s.faulted && s.protocol.phase().rule() is UserDriven
}

/// Whether asking a session for its next phase fails it.
pub open spec fn next_fails<P: Protocol>(s: RussulaPeer<P>, ev: RussulaResult<Option<Vec<u8>>>) -> bool {
    !user_moves(s) && session_fails(s, s.protocol.phase().successor(), ev)
}

/// The phase of a session after it was asked for its next phase.
pub open spec fn next_phase_of<P: Protocol>(s: RussulaPeer<P>, ev: RussulaResult<Option<Vec<u8>>>) -> P::State {
    if user_moves(s) {
        s.protocol.phase().successor()
    } else {
        session_phase(s, s.protocol.phase().successor(), ev)
    }
}

/// Whether session `n`, which sent `reply`, is what asking session `o` for
/// its next phase makes of it.
pub open spec fn asked_next<P: Protocol>(
    o: RussulaPeer<P>,
    ev: RussulaResult<Option<Vec<u8>>>,
    n: RussulaPeer<P>,
    reply: Option<Vec<u8>>,
) -> bool {
    &&& n.addr == o.addr
    &&& n.faulted == (o.faulted || next_fails(o, ev))
    &&& n.protocol.phase() == next_phase_of(o, ev)
    &&& opt_vec(reply) == next_reply_of(o, ev)
}

/// What a session sends after it was asked for its next phase.
pub open spec fn next_reply_of<P: Protocol>(s: RussulaPeer<P>, ev: RussulaResult<Option<Vec<u8>>>) -> Option<Seq<u8>> {
    if user_moves(s) {
        None
    } else {
        session_reply(s, s.protocol.phase().successor(), ev)
    }
}

impl<P: Protocol> RussulaPeer<P> {
    /// One poll toward `target`, given the outcome of the session's receive.
    /// Returns the message to send afterwards and the error that failed the
    /// session, if it failed now.
    fn poll(&mut self, target: P::State, ev: RussulaResult<Option<Vec<u8>>>) -> (r: (
        Option<Vec<u8>>,
        Option<RussulaError>,
    ))
        ensures
            final(self).addr == old(self).addr,
            final(self).faulted == (old(self).faulted || session_fails(*old(self), target, ev)),
            final(self).protocol.phase() == session_phase(*old(self), target, ev),
            opt_vec(r.0) == session_reply(*old(self), target, ev),
            r.1 is Some <==> session_fails(*old(self), target, ev),
            r.1 matches Some(e) ==> session_error(*old(self), ev, e),
    {
        if self.faulted || self.protocol.state().eq(&target) {
            return (None, None);
        }
        let m = match ev {
            Err(e) => {
                if e.is_fatal() {
                    self.faulted = true;
                    return (None, Some(e));
                }
                None
            },
            Ok(m) => m,
        };
        let received = match &m {
            Some(b) => Some(b.as_slice()),
            None => None,
        };
        match self.protocol.advance_once(received) {
            Err(e) => {
                self.faulted = true;
                (None, Some(e))
            },
            Ok(reply) => (reply, None),
        }
    }

    /// Asks the session for its next phase: a user-driven phase moves at
    /// once, any other takes one step toward its successor.
    fn poll_next(&mut self, ev: RussulaResult<Option<Vec<u8>>>) -> (r: (
        Option<Vec<u8>>,
        Option<RussulaError>,
    ))
        ensures
            final(self).addr == old(self).addr,
            final(self).faulted == (old(self).faulted || next_fails(*old(self), ev)),
            final(self).protocol.phase() == next_phase_of(*old(self), ev),
            opt_vec(r.0) == next_reply_of(*old(self), ev),
            r.1 is Some <==> next_fails(*old(self), ev),
            r.1 matches Some(e) ==> session_error(*old(self), ev, e),
    {
        if !self.faulted && self.protocol.request_next() {
            return (None, None);
        }
        let next = self.protocol.state().next_state();
        self.poll(next, ev)
    }
}

/// A coordination aggregate: one session per peer, ordered by peer address,
/// advanced together behind an all-peers barrier.
pub struct Russula<P: Protocol> {
    peer_list: Vec<RussulaPeer<P>>,
}

impl<P: Protocol> Russula<P> {
    pub closed spec fn sessions(&self) -> Seq<RussulaPeer<P>> {
        self.peer_list@
    }

    pub open spec fn phase_at(&self, i: int) -> P::State {
        self.sessions()[i].protocol.phase()
    }

    pub open spec fn all_at(&self, phase: P::State) -> bool {
        forall|i: int| 0 <= i < self.sessions().len() ==> #[trigger] self.phase_at(i) == phase
    }

    /// The number of peer sessions.
    pub fn len(&self) -> (r: usize)
        ensures
            r == self.sessions().len(),
    {
        self.peer_list.len()
    }

    /// The current phase of each session, in peer order.
    pub fn states(&self) -> (r: Vec<P::State>)
        ensures
            r@.len() == self.sessions().len(),
            forall|i: int| 0 <= i < r@.len() ==> r@[i] == #[trigger] self.phase_at(i),
    {
        let mut r: Vec<P::State> = Vec::new();
        let mut i: usize = 0;
        while i < self.peer_list.len()
            invariant
                i <= self.peer_list@.len(),
                r@.len() == i,
                forall|j: int| 0 <= j < i ==> r@[j] == #[trigger] self.phase_at(j),
            decreases self.peer_list@.len() - i,
        {
            r.push(self.peer_list[i].protocol.state());
            i = i + 1;
        }
        r
    }

    /// The peer addresses, in session order.
    pub fn peer_addrs(&self) -> (r: Vec<PeerAddr>)
        ensures
            r@.len() == self.sessions().len(),
            forall|i: int| 0 <= i < r@.len() ==> r@[i] == #[trigger] self.sessions()[i].addr,
    {
        let mut r: Vec<PeerAddr> = Vec::new();
        let mut i: usize = 0;
        while i < self.peer_list.len()
            invariant
                i <= self.peer_list@.len(),
                r@.len() == i,
                forall|j: int| 0 <= j < i ==> r@[j] == #[trigger] self.peer_list@[j].addr,
            decreases self.peer_list@.len() - i,
        {
            r.push(self.peer_list[i].addr);
            i = i + 1;
        }
        r
    }

    /// Whether any session has failed.
    pub fn has_failed(&self) -> (r: bool)
        ensures
            r == exists|i: int| 0 <= i < self.sessions().len() && #[trigger] self.sessions()[i].faulted,
    {
        let mut i: usize = 0;
        while i < self.peer_list.len()
            invariant
                i <= self.peer_list@.len(),
                forall|j: int| 0 <= j < i ==> !(#[trigger] self.peer_list@[j]).faulted,
            decreases self.peer_list@.len() - i,
        {
            if self.peer_list[i].faulted {
                assert(self.sessions()[i as int].faulted);
                return true;
            }
            i = i + 1;
        }
        false
    }

    /// Whether every session reports `state`.
    pub fn check_self_state(&self, state: P::State) -> (r: RussulaResult<bool>)
        ensures
            r == Ok::<bool, RussulaError>(self.all_at(state)),
    {
        let mut i: usize = 0;
        while i < self.peer_list.len()
            invariant
                i <= self.peer_list@.len(),
                forall|j: int| 0 <= j < i ==> #[trigger] self.phase_at(j) == state,
            decreases self.peer_list@.len() - i,
        {
            if !self.peer_list[i].protocol.state().eq(&state) {
                assert(self.phase_at(i as int) != state);
                return Ok(false);
            }
            i = i + 1;
        }
        Ok(true)
    }

    /// The rule of each session's current phase, in peer order.
    pub fn transition_step(&self) -> (r: Vec<TransitionStep>)
        ensures
            r@.len() == self.sessions().len(),
            forall|i: int| 0 <= i < r@.len() ==> step_describes(#[trigger] r@[i], self.phase_at(i).rule()),
    {
        let mut steps: Vec<TransitionStep> = Vec::new();
        let mut i: usize = 0;
        while i < self.peer_list.len()
            invariant
                i <= self.peer_list@.len(),
                steps@.len() == i,
                forall|j: int| 0 <= j < i ==> step_describes(#[trigger] steps@[j], self.phase_at(j).rule()),
            decreases self.peer_list@.len() - i,
        {
            let step = self.peer_list[i].protocol.state().transition_step();
            steps.push(step);
            i = i + 1;
        }
        steps
    }

    /// What each session's next poll toward `target` begins with: the token
    /// to announce, and whether to then read from the peer. Sessions that
    /// have failed or are at `target` do no I/O.
    pub fn step_plans(&self, target: P::State) -> (r: Vec<StepPlan>)
        ensures
            r@.len() == self.sessions().len(),
            forall|i: int|
                0 <= i < r@.len() ==> (opt_vec((#[trigger] r@[i]).announce), r@[i].receive)
                    == session_plan(self.sessions()[i], target),
    {
        let mut plans: Vec<StepPlan> = Vec::new();
        let mut i: usize = 0;
        while i < self.peer_list.len()
            invariant
                i <= self.peer_list@.len(),
                plans@.len() == i,
                forall|j: int|
                    0 <= j < i ==> (opt_vec((#[trigger] plans@[j]).announce), plans@[j].receive)
                        == session_plan(self.peer_list@[j], target),
            decreases self.peer_list@.len() - i,
        {
            let s = self.peer_list[i];
            let plan = if s.faulted || s.protocol.state().eq(&target) {
                StepPlan { announce: None, receive: false }
            } else {
                s.protocol.step_plan()
            };
            plans.push(plan);
            i = i + 1;
        }
        plans
    }

    /// Polls every session once toward `target`. `events[i]` is the outcome
    /// of session `i`'s receive (its plan's read, or `Ok(None)` when it had
    /// none). Returns the message each session sends afterwards, and
    /// `Ready` only if every session is now at `target`. A session that
    /// fails is marked failed for good; the first such error is returned.
    pub fn poll_all_toward(
        &mut self,
        target: P::State,
        events: Vec<RussulaResult<Option<Vec<u8>>>>,
    ) -> (r: (Vec<Option<Vec<u8>>>, RussulaResult<RussulaPoll>))
        requires
            events@.len() == old(self).sessions().len(),
        ensures
            final(self).sessions().len() == old(self).sessions().len(),
            r.0@.len() == old(self).sessions().len(),
            forall|i: int|
                0 <= i < old(self).sessions().len() ==> {
                    &&& (#[trigger] final(self).sessions()[i]).addr == old(self).sessions()[i].addr
                    &&& final(self).sessions()[i].faulted == (old(self).sessions()[i].faulted
                        || session_fails(old(self).sessions()[i], target, events@[i]))
                    &&& final(self).phase_at(i) == session_phase(
                        old(self).sessions()[i],
                        target,
                        events@[i],
                    )
                    &&& opt_vec(r.0@[i]) == session_reply(
                        old(self).sessions()[i],
                        target,
                        events@[i],
                    )
                },
            r.1 is Err <==> exists|i: int|
                0 <= i < events@.len() && session_fails(
                    old(self).sessions()[i],
                    target,
                    #[trigger] events@[i],
                ),
            r.1 matches Err(e) ==> exists|i: int|
                0 <= i < events@.len() && session_fails(
                    old(self).sessions()[i],
                    target,
                    #[trigger] events@[i],
                ) && session_error(old(self).sessions()[i], events@[i], e) && forall|j: int|
                    0 <= j < i ==> !session_fails(old(self).sessions()[j], target, #[trigger] events@[j]),
            (r.1 == Ok::<RussulaPoll, RussulaError>(RussulaPoll::Ready)) <==> final(self).all_at(target),
    {
        let ghost old_sessions = self.peer_list@;
        let ghost all_events = events@;
        let mut events = events;
        let n = self.peer_list.len();
        let mut replies: Vec<Option<Vec<u8>>> = Vec::new();
        let mut first_error: Option<RussulaError> = None;
        let mut i: usize = 0;
        while i < n
            invariant
                n == old_sessions.len(),
                all_events.len() == n,
                i <= n,
                self.peer_list@.len() == n,
                events@ == all_events.subrange(i as int, n as int),
                replies@.len() == i,
                forall|j: int| i <= j < n ==> #[trigger] self.peer_list@[j] == old_sessions[j],
                forall|j: int|
                    0 <= j < i ==> {
                        &&& (#[trigger] self.peer_list@[j]).addr == old_sessions[j].addr
                        &&& self.peer_list@[j].faulted == (old_sessions[j].faulted
                            || session_fails(old_sessions[j], target, all_events[j]))
                        &&& self.peer_list@[j].protocol.phase() == session_phase(
                            old_sessions[j],
                            target,
                            all_events[j],
                        )
                        &&& opt_vec(replies@[j]) == session_reply(
                            old_sessions[j],
                            target,
                            all_events[j],
                        )
                    },
                first_error is None <==> forall|j: int|
                    0 <= j < i ==> !session_fails(old_sessions[j], target, #[trigger] all_events[j]),
                first_error matches Some(e) ==> exists|k: int|
                    0 <= k < i && session_fails(old_sessions[k], target, #[trigger] all_events[k])
                        && session_error(old_sessions[k], all_events[k], e) && forall|j: int|
                        0 <= j < k ==> !session_fails(
                            old_sessions[j],
                            target,
                            #[trigger] all_events[j],
                        ),
            decreases n - i,
        {
            let ev = events.remove(0);
            assert(ev == all_events[i as int]);
            let mut s = self.peer_list[i];
            let (reply, err) = s.poll(target, ev);
            self.peer_list[i] = s;
            replies.push(reply);
            if first_error.is_none() {
                first_error = err;
            }
            i = i + 1;
        }
        let outcome = match first_error {
            Some(e) => Err(e),
            None => {
                let all = match self.check_self_state(target) {
                    Ok(b) => b,
                    Err(_) => false,
                };
                if all {
                    Ok(RussulaPoll::Ready)
                } else {
                    Ok(RussulaPoll::Pending)
                }
            },
        };
        proof {
            if outcome is Err {
                let k = choose|k: int|
                    0 <= k < n && session_fails(old_sessions[k], target, #[trigger] all_events[k]);
                assert(self.phase_at(k) == old_sessions[k].protocol.phase());
                assert(!self.all_at(target));
            }
        }
        (replies, outcome)
    }

    /// Asks every session for its next phase: user-driven phases move at
    /// once, the others take one step toward their successor. `events[i]` is
    /// the outcome of session `i`'s receive. Returns the message each
    /// session sends afterwards, and `Ready` only if every session has
    /// reached the successor of the phase it was in.
    pub fn poll_next(&mut self, events: Vec<RussulaResult<Option<Vec<u8>>>>) -> (r: (
        Vec<Option<Vec<u8>>>,
        RussulaResult<RussulaPoll>,
    ))
        requires
            events@.len() == old(self).sessions().len(),
        ensures
            final(self).sessions().len() == old(self).sessions().len(),
            r.0@.len() == old(self).sessions().len(),
            forall|i: int|
                0 <= i < old(self).sessions().len() ==> {
                    &&& (#[trigger] final(self).sessions()[i]).addr == old(self).sessions()[i].addr
                    &&& final(self).sessions()[i].faulted == (old(self).sessions()[i].faulted
                        || next_fails(old(self).sessions()[i], events@[i]))
                    &&& final(self).phase_at(i) == next_phase_of(old(self).sessions()[i], events@[i])
                    &&& opt_vec(r.0@[i]) == next_reply_of(old(self).sessions()[i], events@[i])
                },
            r.1 is Err <==> exists|i: int|
                0 <= i < events@.len() && next_fails(old(self).sessions()[i], #[trigger] events@[i]),
            r.1 matches Err(e) ==> exists|i: int|
                0 <= i < events@.len() && next_fails(old(self).sessions()[i], #[trigger] events@[i])
                    && session_error(old(self).sessions()[i], events@[i], e) && forall|j: int|
                    0 <= j < i ==> !next_fails(old(self).sessions()[j], #[trigger] events@[j]),
            (r.1 == Ok::<RussulaPoll, RussulaError>(RussulaPoll::Ready)) <==> forall|i: int|
                0 <= i < old(self).sessions().len() ==> #[trigger] final(self).phase_at(i)
                    == old(self).phase_at(i).successor(),
    {
        let ghost old_sessions = self.peer_list@;
        let ghost all_events = events@;
        let mut events = events;
        let n = self.peer_list.len();
        let mut replies: Vec<Option<Vec<u8>>> = Vec::new();
        let mut first_error: Option<RussulaError> = None;
        let mut all_moved = true;
        let mut i: usize = 0;
        while i < n
            invariant
                n == old_sessions.len(),
                all_events.len() == n,
                i <= n,
                self.peer_list@.len() == n,
                events@ == all_events.subrange(i as int, n as int),
                replies@.len() == i,
                forall|j: int| i <= j < n ==> #[trigger] self.peer_list@[j] == old_sessions[j],
                forall|j: int|
                    0 <= j < i ==> asked_next(
                        old_sessions[j],
                        all_events[j],
                        #[trigger] self.peer_list@[j],
                        replies@[j],
                    ),
                all_moved <==> forall|j: int|
                    0 <= j < i ==> (#[trigger] self.peer_list@[j]).protocol.phase()
                        == old_sessions[j].protocol.phase().successor(),
                first_error is None <==> forall|j: int|
                    0 <= j < i ==> !next_fails(old_sessions[j], #[trigger] all_events[j]),
                first_error matches Some(e) ==> exists|k: int|
                    0 <= k < i && next_fails(old_sessions[k], #[trigger] all_events[k])
                        && session_error(old_sessions[k], all_events[k], e) && forall|j: int|
                        0 <= j < k ==> !next_fails(old_sessions[j], #[trigger] all_events[j]),
            decreases n - i,
        {
            let ev = events.remove(0);
            assert(ev == all_events[i as int]);
            let mut s = self.peer_list[i];
            let next = s.protocol.state().next_state();
            let (reply, err) = s.poll_next(ev);
            let moved = s.protocol.state().eq(&next);
            let ghost prev = self.peer_list@;
            self.peer_list[i] = s;
            replies.push(reply);
            if first_error.is_none() {
                first_error = err;
            }
            let ghost was_moved = all_moved;
            all_moved = all_moved && moved;
            proof {
                if !was_moved {
                    let w = choose|w: int|
                        0 <= w < i && (#[trigger] prev[w]).protocol.phase()
                            != old_sessions[w].protocol.phase().successor();
                    assert(self.peer_list@[w] == prev[w]);
                }
                assert(forall|j: int| 0 <= j < n && j != i ==> #[trigger] self.peer_list@[j] == prev[j]);
                assert(self.peer_list@[i as int] == s);
                assert(old_sessions[i as int] == prev[i as int]);
                assert(moved == (s.protocol.phase() == old_sessions[i as int].protocol.phase().successor()));
                assert(replies@[i as int] == reply);
            }
            i = i + 1;
        }
        let outcome = match first_error {
            Some(e) => Err(e),
            None => {
                if all_moved {
                    Ok(RussulaPoll::Ready)
                } else {
                    Ok(RussulaPoll::Pending)
                }
            },
        };
        proof {
            assert(forall|j: int| 0 <= j < n ==> #[trigger] self.phase_at(j) == self.peer_list@[j].protocol.phase());
            if outcome is Err {
                let k = choose|k: int|
                    0 <= k < n && next_fails(old_sessions[k], #[trigger] all_events[k]);
                let p = old_sessions[k].protocol.phase();
                p.lemma_chain();
                assert(self.phase_at(k) == p);
                assert(self.peer_list@[k].protocol.phase() != p.successor());
            }
            if !all_moved {
                let w = choose|w: int|
                    0 <= w < n && (#[trigger] self.peer_list@[w]).protocol.phase()
                        != old_sessions[w].protocol.phase().successor();
                assert(self.phase_at(w) != old_sessions[w].protocol.phase().successor());
            }
        }
        (replies, outcome)
    }
}

/// The number of poll rounds a caller allows while waiting for one phase, so
/// that a peer that never answers ends the wait instead of stalling it.
pub struct PollBudget {
    limit: Option<u64>,
    rounds: u64,
}

impl PollBudget {
    /// The most rounds allowed; `None` waits for ever.
    pub closed spec fn bound(&self) -> Option<u64> {
        self.limit
    }

    pub closed spec fn used(&self) -> nat {
        self.rounds as nat
    }

    pub fn new(limit: Option<u64>) -> (r: Self)
        ensures
            r.bound() == limit,
            r.used() == 0,
    {
        PollBudget { limit, rounds: 0 }
    }

    /// Counts one more round and says whether another may follow.
    pub fn spend(&mut self) -> (r: bool)
        ensures
            final(self).bound() == old(self).bound(),
            final(self).used() == if old(self).used() < u64::MAX {
                old(self).used() + 1
            } else {
                old(self).used()
            },
            r == match old(self).bound() {
                None => true,
                Some(n) => final(self).used() < n,
            },
    {
        if self.rounds < u64::MAX {
            self.rounds = self.rounds + 1;
        }
        match self.limit {
            None => true,
            Some(n) => self.rounds < n,
        }
    }
}

/// Resolves a set of peer addresses and a protocol template into peer
/// sessions, one per distinct address, ordered by address.
pub struct RussulaBuilder<P: Protocol> {
    peer_list: Vec<PeerAddr>,
    protocol: P,
}

/// Whether `dial[i]` is the first failed connection attempt.
pub open spec fn first_failure(dial: Seq<RussulaResult<()>>, i: int) -> bool {
    &&& 0 <= i < dial.len()
    &&& dial[i] is Err
    &&& forall|j: int| 0 <= j < i ==> (#[trigger] dial[j]) is Ok
}

impl<P: Protocol> RussulaBuilder<P> {
    pub closed spec fn addrs(&self) -> Seq<PeerAddr> {
        self.peer_list@
    }

    pub closed spec fn template(&self) -> P {
        self.protocol
    }

    /// Pairs each distinct address with a copy of `protocol`, in address
    /// order.
    pub fn new(addr: Vec<PeerAddr>, protocol: P) -> (r: Self)
        ensures
            strictly_sorted(r.addrs()),
            forall|x: PeerAddr| r.addrs().contains(x) <==> addr@.contains(x),
            r.template() == protocol,
    {
        let mut sorted: Vec<PeerAddr> = Vec::new();
        let mut i: usize = 0;
        while i < addr.len()
            invariant
                i <= addr@.len(),
                strictly_sorted(sorted@),
                forall|x: PeerAddr|
                    sorted@.contains(x) <==> addr@.subrange(0, i as int).contains(x),
            decreases addr@.len() - i,
        {
            let a = addr[i];
            insert_sorted(&mut sorted, a);
            proof {
                let prefix = addr@.subrange(0, i as int);
                let next = addr@.subrange(0, i + 1);
                assert(next =~= prefix.push(a));
                assert forall|x: PeerAddr| next.contains(x) <==> (prefix.contains(x) || x == a) by {
                    if next.contains(x) {
                        let k = choose|k: int| 0 <= k < next.len() && next[k] == x;
                        if k < i {
                            assert(prefix[k] == x);
                        }
                    }
                    if prefix.contains(x) {
                        let k = choose|k: int| 0 <= k < prefix.len() && prefix[k] == x;
                        assert(next[k] == x);
                    }
                    if x == a {
                        assert(next[i as int] == x);
                    }
                }
            }
            i = i + 1;
        }
        proof {
            assert(addr@.subrange(0, addr@.len() as int) =~= addr@);
        }
        RussulaBuilder { peer_list: sorted, protocol }
    }

    /// The addresses to connect to, in session order.
    pub fn peer_addrs(&self) -> (r: Vec<PeerAddr>)
        ensures
            r@ == self.addrs(),
    {
        let mut r: Vec<PeerAddr> = Vec::new();
        let mut i: usize = 0;
        while i < self.peer_list.len()
            invariant
                i <= self.peer_list@.len(),
                r@ == self.peer_list@.subrange(0, i as int),
            decreases self.peer_list@.len() - i,
        {
            r.push(self.peer_list[i]);
            proof {
                assert(self.peer_list@.subrange(0, i + 1) =~= self.peer_list@.subrange(
                    0,
                    i as int,
                ).push(self.peer_list@[i as int]));
            }
            i = i + 1;
        }
        proof {
            assert(self.peer_list@.subrange(0, i as int) =~= self.peer_list@);
        }
        r
    }

    /// Whether this role dials its peers, or listens for one.
    pub fn dials_out(&self) -> (r: bool)
        ensures
            r == P::initiator(),
    {
        self.protocol.dials_out()
    }

    /// Builds the aggregate from the outcome of each connection attempt, in
    /// session order. Partial connectivity is no valid start: any failed
    /// attempt fails the build with the first failure, and so does a missing
    /// attempt.
    pub fn build(self, dial: Vec<RussulaResult<()>>) -> (r: RussulaResult<Russula<P>>)
        ensures
            r is Ok <==> (dial@.len() == self.addrs().len() && forall|i: int|
                0 <= i < dial@.len() ==> (#[trigger] dial@[i]) is Ok),
            r matches Ok(russula) ==> {
                &&& russula.sessions().len() == self.addrs().len()
                &&& forall|i: int|
                    0 <= i < self.addrs().len() ==> {
                        &&& (#[trigger] russula.sessions()[i]).addr == self.addrs()[i]
                        &&& russula.sessions()[i].protocol == self.template()
                        &&& !russula.sessions()[i].faulted
                    }
            },
            r matches Err(e) ==> if exists|i: int| first_failure(dial@, i) {
                exists|i: int| first_failure(dial@, i) && dial@[i] == Err::<(), RussulaError>(e)
            } else {
                e is ConnectFailure
            },
    {
        let n = dial.len();
        let mut i: usize = 0;
        while i < n && dial[i].is_ok()
            invariant
                n == dial@.len(),
                i <= n,
                forall|j: int| 0 <= j < i ==> (#[trigger] dial@[j]) is Ok,
            decreases n - i,
        {
            i = i + 1;
        }
        if i < n {
            assert(first_failure(dial@, i as int));
            let ghost all = dial@;
            let mut rest = dial;
            let outcome = rest.remove(i);
            assert(outcome == all[i as int]);
            match outcome {
                Err(e) => {
                    return Err(e);
                },
                Ok(()) => {
                    assert(false);
                    return Err(
                        RussulaError::ConnectFailure {
                            dbg: String::from_str("not every peer was connected"),
                        },
                    );
                },
            }
        }
        if n != self.peer_list.len() {
            assert(forall|k: int| !first_failure(dial@, k));
            return Err(
                RussulaError::ConnectFailure {
                    dbg: String::from_str("not every peer was connected"),
                },
            );
        }
        let mut sessions: Vec<RussulaPeer<P>> = Vec::new();
        let mut k: usize = 0;
        while k < self.peer_list.len()
            invariant
                k <= self.peer_list@.len(),
                sessions@.len() == k,
                forall|j: int|
                    0 <= j < k ==> {
                        &&& (#[trigger] sessions@[j]).addr == self.peer_list@[j]
                        &&& sessions@[j].protocol == self.protocol
                        &&& !sessions@[j].faulted
                    },
            decreases self.peer_list@.len() - k,
        {
            sessions.push(RussulaPeer { addr: self.peer_list[k], protocol: self.protocol, faulted: false });
            k = k + 1;
        }
        Ok(Russula { peer_list: sessions })
    }
}

} // verus!
