use crate::error::RussulaError;
use vstd::prelude::*;

verus! {

/// The bytes of an ASCII text, one byte per character.
pub open spec fn ascii(s: Seq<char>) -> Seq<u8> {
    s.map_values(|c: char| c as u8)
}

pub proof fn lemma_ascii_len(s: Seq<char>)
    ensures
        ascii(s).len() == s.len(),
{
}

/// Copies the characters of `s` into a byte vector, one byte each.
pub fn ascii_bytes(s: &str) -> (r: Vec<u8>)
    ensures
        r@ == ascii(s@),
{
    let n = s.unicode_len();
    let mut r: Vec<u8> = Vec::new();
    let mut i: usize = 0;
    while i < n
        invariant
            n == s@.len(),
            i <= n,
            r@ == ascii(s@.subrange(0, i as int)),
        decreases n - i,
    {
        let c = s.get_char(i);
        r.push(c as u8);
        proof {
            assert(ascii(s@.subrange(0, i + 1)) =~= ascii(s@.subrange(0, i as int)).push(c as u8));
        }
        i = i + 1;
    }
    proof {
        assert(s@.subrange(0, n as int) =~= s@);
    }
    r
}

/// Whether `bytes` spell exactly the ASCII text `token`.
pub fn token_matches(bytes: &[u8], token: &str) -> (r: bool)
    ensures
        r == (bytes@ == ascii(token@)),
{
    let expected = ascii_bytes(token);
    if bytes.len() != expected.len() {
        return false;
    }
    let mut i: usize = 0;
    while i < bytes.len()
        invariant
            expected@ == ascii(token@),
            bytes@.len() == expected@.len(),
            i <= bytes@.len(),
            forall|j: int| 0 <= j < i ==> bytes@[j] == expected@[j],
        decreases bytes@.len() - i,
    {
        if bytes[i] != expected[i] {
            return false;
        }
        i = i + 1;
    }
    proof {
        assert(bytes@ =~= expected@);
    }
    true
}

/// How a phase may be left.
#[derive(Debug, Clone, Copy, PartialEq, Eq)]
pub enum StepRule<Q> {
    /// Advances only once the peer reports phase `Q`.
    AwaitPeer(Q),
    /// Advances only when the owning application asks for it.
    UserDriven,
    /// Advances on the next step attempt, unconditionally.
    SelfDriven,
    /// The terminal phase: no further transition.
    Finished,
}

/// The caller-facing form of a phase's rule, with the awaited peer token as
/// bytes.
#[derive(Debug, Clone, PartialEq, Eq)]
pub enum TransitionStep {
    AwaitPeerState(Vec<u8>),
    UserDriven,
    SelfDriven,
    Finished,
}

/// Whether a target phase has been reached.
#[derive(Debug, Clone, Copy, PartialEq, Eq)]
pub enum RussulaPoll {
    Ready,
    Pending,
}

impl RussulaPoll {
    pub fn is_ready(&self) -> (r: bool)
        ensures
            r == (*self is Ready),
    {
        match self {
            RussulaPoll::Ready => true,
            RussulaPoll::Pending => false,
        }
    }

    pub fn is_pending(&self) -> (r: bool)
        ensures
            r == (*self is Pending),
    {
        match self {
            RussulaPoll::Ready => false,
            RussulaPoll::Pending => true,
        }
    }
}

/// A phase vocabulary on the wire: each phase has exactly one token.
pub trait PhaseToken: Sized + Copy {
    /// The wire token of the phase.
    spec fn token(self) -> Seq<u8>;

    /// No two phases share a token.
    proof fn lemma_token_injective(self, other: Self)
        ensures
            self.token() == other.token() ==> self == other,
    ;

    fn eq(&self, other: &Self) -> (r: bool)
        ensures
            r == (*self == *other),
    ;

    fn as_bytes(&self) -> (r: Vec<u8>)
        ensures
            r@ == self.token(),
    ;

    /// Decodes a wire token; any byte sequence that is not the token of a
    /// phase is a `MalformedMessage` carrying those bytes.
    fn from_bytes(bytes: &[u8]) -> (r: Result<Self, RussulaError>)
        ensures
            match r {
                Ok(p) => p.token() == bytes@,
                Err(e) => (forall|q: Self| q.token() != bytes@) && malformed(e, bytes@),
            },
    ;
}

/// One role's chain of phases: a linear progression with one terminal phase,
/// a wire token per phase, and a rule per phase for leaving it.
pub trait StateApi: PhaseToken {
    /// The phases of the role on the other end of the connection.
    type Peer: PhaseToken;

    /// The phase that follows this one; the terminal phase follows itself.
    spec fn successor(self) -> Self;

    /// The position of the phase along the chain, counted from the initial
    /// phase.
    spec fn rank(self) -> nat;

    spec fn rule(self) -> StepRule<Self::Peer>;

    /// Whether a step taken in this phase first sends the phase's own token.
    spec fn announces(self) -> bool;

    /// Whether a step that enters this phase sends the phase's token.
    spec fn reports_on_entry(self) -> bool;

    /// The phase a role starts in.
    spec fn initial() -> Self;

    /// The phase at which the role is ready to run.
    spec fn ready_phase() -> Self;

    /// The terminal phase.
    spec fn done_phase() -> Self;

    /// The chain is linear and ends in a fixed point.
    proof fn lemma_chain(self)
        ensures
            self.rule() is Finished ==> self.successor() == self,
            !(self.rule() is Finished) ==> self.successor().rank() == self.rank() + 1,
            Self::initial().rank() == 0,
            Self::done_phase().rule() is Finished,
            self.rule() is Finished ==> self == Self::done_phase(),
    ;

    fn initial_state() -> (r: Self)
        ensures
            r == Self::initial(),
    ;

    fn ready() -> (r: Self)
        ensures
            r == Self::ready_phase(),
    ;

    fn done() -> (r: Self)
        ensures
            r == Self::done_phase(),
    ;

    fn next_state(&self) -> (r: Self)
        ensures
            r == self.successor(),
    ;

    fn step_rule(&self) -> (r: StepRule<Self::Peer>)
        ensures
            r == self.rule(),
    ;

    fn announces_state(&self) -> (r: bool)
        ensures
            r == self.announces(),
    ;

    fn reports_state_on_entry(&self) -> (r: bool)
        ensures
            r == self.reports_on_entry(),
    ;

    /// The rule of this phase in its caller-facing form.
    fn transition_step(&self) -> (r: TransitionStep)
        ensures
            step_describes(r, self.rule()),
    {
        match self.step_rule() {
            StepRule::AwaitPeer(q) => TransitionStep::AwaitPeerState(q.as_bytes()),
            StepRule::UserDriven => TransitionStep::UserDriven,
            StepRule::SelfDriven => TransitionStep::SelfDriven,
            StepRule::Finished => TransitionStep::Finished,
        }
    }
}

/// Whether `e` reports `bytes` as a malformed message.
pub open spec fn malformed(e: RussulaError, bytes: Seq<u8>) -> bool {
    e matches RussulaError::MalformedMessage { bytes: b } && b@ == bytes
}

pub open spec fn step_describes<Q: PhaseToken>(t: TransitionStep, rule: StepRule<Q>) -> bool {
    match rule {
        StepRule::AwaitPeer(q) => t matches TransitionStep::AwaitPeerState(b) && b@ == q.token(),
        StepRule::UserDriven => t is UserDriven,
        StepRule::SelfDriven => t is SelfDriven,
        StepRule::Finished => t is Finished,
    }
}

/// Whether some phase of `S` has the token `b`.
pub open spec fn decodes<S: PhaseToken>(b: Seq<u8>) -> bool {
    exists|p: S| p.token() == b
}

/// The phase whose token is `b`, if any.
pub open spec fn decode<S: PhaseToken>(b: Seq<u8>) -> Option<S> {
    if decodes::<S>(b) {
        Some(choose|p: S| p.token() == b)
    } else {
        None
    }
}

pub open spec fn opt_bytes(m: Option<&[u8]>) -> Option<Seq<u8>> {
    match m {
        Some(b) => Some(b@),
        None => None,
    }
}

pub open spec fn opt_vec(m: Option<Vec<u8>>) -> Option<Seq<u8>> {
    match m {
        Some(b) => Some(b@),
        None => None,
    }
}

/// The phase after one step from `p`, given what was received during it.
pub open spec fn step_phase<S: StateApi>(p: S, received: Option<Seq<u8>>) -> S {
    match p.rule() {
        StepRule::AwaitPeer(q) => match received {
            Some(b) => if b == q.token() {
                p.successor()
            } else {
                p
            },
            None => p,
        },
        StepRule::SelfDriven => p.successor(),
        _ => p,
    }
}

/// Whether one step from `p` fails on an undecodable message.
pub open spec fn step_malformed<S: StateApi>(p: S, received: Option<Seq<u8>>) -> bool {
    &&& p.rule() is AwaitPeer
    &&& received is Some
    &&& !decodes::<S::Peer>(received.unwrap())
}

/// The message sent on entering `next`, if it reports itself.
pub open spec fn entry_report<S: StateApi>(next: S) -> Option<Seq<u8>> {
    if next.reports_on_entry() {
        Some(next.token())
    } else {
        None
    }
}

/// What one step from `p` sends after it has moved, if anything.
pub open spec fn step_reply<S: StateApi>(p: S, received: Option<Seq<u8>>) -> Option<Seq<u8>> {
    if step_phase(p, received) != p {
        entry_report(step_phase(p, received))
    } else {
        None
    }
}

/// What a step from `p` does before any message is received: the token it
/// announces and whether it then reads from the peer.
pub struct StepPlan {
    pub announce: Option<Vec<u8>>,
    pub receive: bool,
}

pub open spec fn plan_announce<S: StateApi>(p: S) -> Option<Seq<u8>> {
    if p.announces() && (p.rule() is AwaitPeer || p.rule() is SelfDriven) {
        Some(p.token())
    } else {
        None
    }
}

/// The I/O that one step from `p` begins with.
pub fn plan_step<S: StateApi>(p: &S) -> (r: StepPlan)
    ensures
        opt_vec(r.announce) == plan_announce(*p),
        r.receive == (p.rule() is AwaitPeer),
{
    let rule = p.step_rule();
    let receive = match rule {
        StepRule::AwaitPeer(_) => true,
        _ => false,
    };
    let moves = match rule {
        StepRule::AwaitPeer(_) => true,
        StepRule::SelfDriven => true,
        _ => false,
    };
    let announce = if moves && p.announces_state() {
        Some(p.as_bytes())
    } else {
        None
    };
    StepPlan { announce, receive }
}

/// Takes exactly one step from `*phase`, given the message received during it
/// (`None`: nothing was available). Returns the message to send after the
/// step, if any.
pub fn advance_phase<S: StateApi>(phase: &mut S, received: Option<&[u8]>) -> (r: Result<
    Option<Vec<u8>>,
    RussulaError,
>)
    ensures
        *final(phase) == step_phase(*old(phase), opt_bytes(received)),
        r is Err <==> step_malformed(*old(phase), opt_bytes(received)),
        r matches Err(e) ==> malformed(e, opt_bytes(received).unwrap()),
        r matches Ok(m) ==> opt_vec(m) == step_reply(*old(phase), opt_bytes(received)),
{
    proof {
        phase.lemma_chain();
    }
    match phase.step_rule() {
        StepRule::AwaitPeer(q) => match received {
            None => Ok(None),
            Some(b) => match <S::Peer as PhaseToken>::from_bytes(b) {
                Err(e) => Err(e),
                Ok(got) => {
                    proof {
                        got.lemma_token_injective(q);
                        lemma_token_round_trip::<S::Peer>(q, q.token());
                    }
                    if got.eq(&q) {
                        let next = phase.next_state();
                        *phase = next;
                        if next.reports_state_on_entry() {
                            Ok(Some(next.as_bytes()))
                        } else {
                            Ok(None)
                        }
                    } else {
                        Ok(None)
                    }
                },
            },
        },
        StepRule::SelfDriven => {
            let next = phase.next_state();
            *phase = next;
            if next.reports_state_on_entry() {
                Ok(Some(next.as_bytes()))
            } else {
                Ok(None)
            }
        },
        _ => Ok(None),
    }
}

/// Token round trip: the token of every phase decodes to that phase, and a
/// byte sequence that is no phase's token decodes to nothing.
pub proof fn lemma_token_round_trip<S: PhaseToken>(p: S, b: Seq<u8>)
    ensures
        decodes::<S>(p.token()),
        decode::<S>(p.token()) == Some(p),
        (forall|q: S| q.token() != b) ==> decode::<S>(b) is None,
{
    assert(decodes::<S>(p.token()));
    let q = choose|q: S| q.token() == p.token();
    q.lemma_token_injective(p);
}

/// `p` after `n` self-driven steps.
pub open spec fn iterate_successor<S: StateApi>(p: S, n: nat) -> S
    decreases n,
{
    if n == 0 {
        p
    } else {
        iterate_successor(p.successor(), (n - 1) as nat)
    }
}

/// The terminal phase is a fixed point: any number of self-driven steps
/// from it, and any step of a protocol in it, leave it where it is and send
/// nothing.
pub proof fn lemma_terminal_fixed_point<S: StateApi>(p: S, n: nat, received: Option<Seq<u8>>)
    requires
        p.rule() is Finished,
    ensures
        iterate_successor(p, n) == p,
        step_phase(p, received) == p,
        step_reply(p, received) is None,
    decreases n,
{
    p.lemma_chain();
    if n > 0 {
        lemma_terminal_fixed_point(p, (n - 1) as nat, received);
    }
}

/// In a peer-driven phase a step advances to the successor exactly when the
/// awaited token was received; when nothing or any other message arrived,
/// the phase stays as it was.
pub proof fn lemma_peer_driven_step<S: StateApi>(p: S, received: Option<Seq<u8>>)
    requires
        p.rule() is AwaitPeer,
    ensures
        p.rule() matches StepRule::AwaitPeer(q) && (step_phase(p, received) == p.successor()
            <==> received == Some(q.token())),
        step_phase(p, received) == p || step_phase(p, received) == p.successor(),
        received is None ==> step_phase(p, received) == p,
{
    p.lemma_chain();
}

/// A phase only ever moves forward along its chain.
pub proof fn lemma_step_moves_forward<S: StateApi>(p: S, received: Option<Seq<u8>>)
    ensures
        step_phase(p, received).rank() >= p.rank(),
        step_phase(p, received) != p ==> step_phase(p, received).rank() == p.rank() + 1,
{
    p.lemma_chain();
}

/// One protocol instance of a role: the sole holder of that role's current
/// phase, moved only by its own step functions.
pub trait Protocol: Sized + Copy {
    type State: StateApi;

    spec fn phase(self) -> Self::State;

    /// Whether the role dials its peers; otherwise it listens and accepts a
    /// single connection.
    spec fn initiator() -> bool;

    fn state(&self) -> (r: Self::State)
        ensures
            r == self.phase(),
    ;

    fn dials_out(&self) -> (r: bool)
        ensures
            r == Self::initiator(),
    ;

    /// Takes exactly one step, given what was received during it (`None`:
    /// nothing was available). Returns the message to send after the step.
    fn advance_once(&mut self, received: Option<&[u8]>) -> (r: Result<Option<Vec<u8>>, RussulaError>)
        ensures
            final(self).phase() == step_phase(old(self).phase(), opt_bytes(received)),
            r is Err <==> step_malformed(old(self).phase(), opt_bytes(received)),
            r matches Err(e) ==> malformed(e, opt_bytes(received).unwrap()),
            r matches Ok(m) ==> opt_vec(m) == step_reply(old(self).phase(), opt_bytes(received)),
    ;

    /// Moves a user-driven phase on to its successor, at the owning
    /// application's request. Returns whether the phase moved.
    fn request_next(&mut self) -> (r: bool)
        ensures
            r == (old(self).phase().rule() is UserDriven),
            r ==> final(self).phase() == old(self).phase().successor(),
            !r ==> final(self).phase() == old(self).phase(),
    ;

    /// The I/O that the next step begins with.
    fn step_plan(&self) -> (r: StepPlan)
        ensures
            opt_vec(r.announce) == plan_announce(self.phase()),
            r.receive == (self.phase().rule() is AwaitPeer),
    {
        plan_step(&self.state())
    }

    /// Takes at most one step toward `target` and reports whether it has
    /// been reached; a protocol already at `target` does not step. Also
    /// returns the message to send after the step.
    fn poll_toward(&mut self, target: Self::State, received: Option<&[u8]>) -> (r: Result<
        (RussulaPoll, Option<Vec<u8>>),
        RussulaError,
    >)
        ensures
            final(self).phase() == poll_phase(old(self).phase(), target, opt_bytes(received)),
            r is Err <==> (old(self).phase() != target && step_malformed(
                old(self).phase(),
                opt_bytes(received),
            )),
            r matches Err(e) ==> malformed(e, opt_bytes(received).unwrap()),
            r matches Ok((poll, m)) ==> {
                &&& (poll is Ready <==> final(self).phase() == target)
                &&& opt_vec(m) == (if old(self).phase() == target {
                    None
                } else {
                    step_reply(old(self).phase(), opt_bytes(received))
                })
            },
    {
        if self.state().eq(&target) {
            return Ok((RussulaPoll::Ready, None));
        }
        match self.advance_once(received) {
            Err(e) => Err(e),
            Ok(m) => {
                let poll = if self.state().eq(&target) {
                    RussulaPoll::Ready
                } else {
                    RussulaPoll::Pending
                };
                Ok((poll, m))
            },
        }
    }
}

/// The phase after a poll toward `target`.
pub open spec fn poll_phase<S: StateApi>(p: S, target: S, received: Option<Seq<u8>>) -> S {
    if p == target {
        p
    } else {
        step_phase(p, received)
    }
}

} // verus!
