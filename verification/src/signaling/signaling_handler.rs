use vstd::prelude::*;
use vstd::string::*;

verus! {

/// Represents the role of the signaling handler in a WebRTC session.
#[derive(Debug, Clone, Copy, PartialEq, Eq, Structural)]
pub enum SignalingRole {
    /// Initiates an SDP Offer.
    Initiator,
    /// Responder role; processes SDP Offer and generates SDP Answer.
    Responder,
}

/// Represents the logical state of the JSEP signaling process.
#[derive(Debug, Clone)]
pub enum SignalingState {
    /// Initial state: Ready for room assignment or waiting for incoming Offer.
    Idle,
    /// Initiator state: Local SDP Offer created and sent to signaling server.
    WaitingForAnswer,
    /// Handshake active: SDP Answer has been exchanged; ICE trickling is underway.
    TricklingIce,
    /// Signaling complete: Session description and ICE candidates are fully synchronized.
    Stable,
    /// Fatal error: Handshake or negotiation failed.
    Error(String),
}

/// Two states are equal when they are the same variant and, for `Error`,
/// carry the same message text.
pub open spec fn same_state(a: SignalingState, b: SignalingState) -> bool {
    match (a, b) {
        (SignalingState::Idle, SignalingState::Idle) => true,
        (SignalingState::WaitingForAnswer, SignalingState::WaitingForAnswer) => true,
        (SignalingState::TricklingIce, SignalingState::TricklingIce) => true,
        (SignalingState::Stable, SignalingState::Stable) => true,
        (SignalingState::Error(x), SignalingState::Error(y)) => x@ == y@,
        _ => false,
    }
}

impl PartialEq for SignalingState {
    fn eq(&self, other: &SignalingState) -> (r: bool) {
        match (self, other) {
            (SignalingState::Idle, SignalingState::Idle) => true,
            (SignalingState::WaitingForAnswer, SignalingState::WaitingForAnswer) => true,
            (SignalingState::TricklingIce, SignalingState::TricklingIce) => true,
            (SignalingState::Stable, SignalingState::Stable) => true,
            (SignalingState::Error(x), SignalingState::Error(y)) => x.eq(y),
            _ => false,
        }
    }
}

impl vstd::std_specs::cmp::PartialEqSpecImpl for SignalingState {
    open spec fn obeys_eq_spec() -> bool {
        true
    }

    open spec fn eq_spec(&self, other: &SignalingState) -> bool {
        same_state(*self, *other)
    }
}

impl Eq for SignalingState {}

/// The transitions of the JSEP handshake that `advance` accepts.
pub open spec fn is_valid_transition(
    role: SignalingRole,
    from: SignalingState,
    to: SignalingState,
) -> bool {
    match (role, from, to) {
        // Initiator transitions
        (SignalingRole::Initiator, SignalingState::Idle, SignalingState::WaitingForAnswer) => true,
        (SignalingRole::Initiator, SignalingState::WaitingForAnswer, SignalingState::TricklingIce) => true,
        // Responder transitions (skips WaitingForAnswer)
        (SignalingRole::Responder, SignalingState::Idle, SignalingState::TricklingIce) => true,
        // Shared transitions
        (_, SignalingState::TricklingIce, SignalingState::Stable) => true,
        // Any state may fail
        (_, _, SignalingState::Error(_)) => true,
        _ => false,
    }
}

/// The `{:?}` text of a string slice: the text in double quotes, with
/// characters escaped as `str::escape_debug` does.
pub uninterp spec fn str_debug_text(s: Seq<char>) -> Seq<char>;

/// Calls `<str as Debug>::fmt` through `format!("{:?}", s)`.
/// Claims only that the result is the deterministic debug text of `s`.
#[verifier::external_body]
fn debug_quoted(s: &str) -> (r: String)
    ensures
        r@ == str_debug_text(s@),
{
    format!("{:?}", s)
}

/// The `{:?}` text of a role.
pub open spec fn role_text(role: SignalingRole) -> Seq<char> {
    match role {
        SignalingRole::Initiator => "Initiator"@,
        SignalingRole::Responder => "Responder"@,
    }
}

/// The `{:?}` text of a state.
pub open spec fn state_text(s: SignalingState) -> Seq<char> {
    match s {
        SignalingState::Idle => "Idle"@,
        SignalingState::WaitingForAnswer => "WaitingForAnswer"@,
        SignalingState::TricklingIce => "TricklingIce"@,
        SignalingState::Stable => "Stable"@,
        SignalingState::Error(m) => "Error("@ + str_debug_text(m@) + ")"@,
    }
}

/// The message that `advance` returns for a refused transition.
pub open spec fn transition_error_text(
    role: SignalingRole,
    from: SignalingState,
    to: SignalingState,
) -> Seq<char> {
    "Invalid transition "@ + state_text(from) + " -> "@ + state_text(to) + " for role "@
        + role_text(role)
}

fn append_role_text(out: &mut String, role: SignalingRole)
    ensures
        final(out)@ == old(out)@ + role_text(role),
{
    match role {
        SignalingRole::Initiator => out.append("Initiator"),
        SignalingRole::Responder => out.append("Responder"),
    }
}

fn append_state_text(out: &mut String, s: &SignalingState)
    ensures
        final(out)@ == old(out)@ + state_text(*s),
{
    match s {
        SignalingState::Idle => out.append("Idle"),
        SignalingState::WaitingForAnswer => out.append("WaitingForAnswer"),
        SignalingState::TricklingIce => out.append("TricklingIce"),
        SignalingState::Stable => out.append("Stable"),
        SignalingState::Error(m) => {
            let q = debug_quoted(m.as_str());
            out.append("Error(");
            out.append(q.as_str());
            out.append(")");
            assert(final(out)@ =~= old(out)@ + state_text(*s));
        },
    }
}

/// Manages the WebRTC signaling state machine for a specific role.
pub struct SignalingHandler {
    /// The assigned role (Initiator/Responder) for this session.
    pub role: SignalingRole,
    /// The current state of the JSEP handshake.
    pub state: SignalingState,
}

impl SignalingHandler {
    /// Creates a new SignalingHandler with the specified role.
    pub fn new(role: SignalingRole) -> (h: Self)
        ensures
            h.role == role,
            h.state == SignalingState::Idle,
    {
        Self { role, state: SignalingState::Idle }
    }

    /// Advances the state machine. Returns an Error if the transition is invalid.
    pub fn advance(&mut self, next: SignalingState) -> (r: Result<(), String>)
        ensures
            final(self).role == old(self).role,
            is_valid_transition(old(self).role, old(self).state, next) ==> {
                &&& r is Ok
                &&& final(self).state == next
            },
            final(self).state == advance_state(old(self).role, old(self).state, next),
            !is_valid_transition(old(self).role, old(self).state, next) ==> {
                &&& r is Err
                &&& r->Err_0@ == transition_error_text(old(self).role, old(self).state, next)
                &&& final(self).state == old(self).state
            },
    {
        if self.can_advance(&next) {
            self.state = next;
            Ok(())
        } else {
            Err(self.transition_error(&next))
        }
    }

    /// Whether `advance` would accept a move to `next`.
    pub(crate) fn can_advance(&self, next: &SignalingState) -> (b: bool)
        ensures
            b == is_valid_transition(self.role, self.state, *next),
    {
        match (&self.role, &self.state, next) {
            (SignalingRole::Initiator, SignalingState::Idle, SignalingState::WaitingForAnswer) => true,
            (SignalingRole::Initiator, SignalingState::WaitingForAnswer, SignalingState::TricklingIce) => true,
            (SignalingRole::Responder, SignalingState::Idle, SignalingState::TricklingIce) => true,
            (_, SignalingState::TricklingIce, SignalingState::Stable) => true,
            (_, _, SignalingState::Error(_)) => true,
            _ => false,
        }
    }

    /// The error with which `advance` refuses a move to `next`.
    pub(crate) fn transition_error(&self, next: &SignalingState) -> (msg: String)
        ensures
            msg@ == transition_error_text(self.role, self.state, *next),
    {
        let mut msg = String::new();
        msg.append("Invalid transition ");
        append_state_text(&mut msg, &self.state);
        msg.append(" -> ");
        append_state_text(&mut msg, next);
        msg.append(" for role ");
        append_role_text(&mut msg, self.role);
        assert(msg@ =~= transition_error_text(self.role, self.state, *next));
        msg
    }

    /// Moves to the `Error` state with the given message, from any state.
    pub fn set_error(&mut self, message: String)
        ensures
            final(self).role == old(self).role,
            final(self).state == SignalingState::Error(message),
    {
        self.state = SignalingState::Error(message);
    }

    /// Returns to the `Idle` state, keeping the role.
    pub fn reset(&mut self)
        ensures
            final(self).role == old(self).role,
            final(self).state == SignalingState::Idle,
    {
        self.state = SignalingState::Idle;
    }

    pub fn is_stable(&self) -> (b: bool)
        ensures
            b <==> self.state is Stable,
    {
        matches!(self.state, SignalingState::Stable)
    }

    pub fn is_error(&self) -> (b: bool)
        ensures
            b <==> self.state is Error,
    {
        matches!(self.state, SignalingState::Error(_))
    }
}

/// The position of a state along the handshake; `Error` stands outside it.
pub open spec fn handshake_rank(s: SignalingState) -> int {
    match s {
        SignalingState::Idle => 0,
        SignalingState::WaitingForAnswer => 1,
        SignalingState::TricklingIce => 2,
        SignalingState::Stable => 3,
        SignalingState::Error(_) => -1,
    }
}

/// The one state that the handshake may move to next from `from`, for `role`.
pub open spec fn handshake_successor(role: SignalingRole, from: SignalingState) -> Option<
    SignalingState,
> {
    match (role, from) {
        (SignalingRole::Initiator, SignalingState::Idle) => Some(SignalingState::WaitingForAnswer),
        (SignalingRole::Initiator, SignalingState::WaitingForAnswer) => Some(
            SignalingState::TricklingIce,
        ),
        (SignalingRole::Responder, SignalingState::Idle) => Some(SignalingState::TricklingIce),
        (_, SignalingState::TricklingIce) => Some(SignalingState::Stable),
        _ => None,
    }
}

/// Whatever the role and the current state, the machine may always fail:
/// a transition to `Error` is always accepted.
pub proof fn lemma_error_reachable_from_every_state(
    role: SignalingRole,
    from: SignalingState,
    message: String,
)
    ensures
        is_valid_transition(role, from, SignalingState::Error(message)),
{
}

/// Apart from failing, the handshake is a chain: from each state the only
/// accepted move is to its one successor for the role (Initiator:
/// Idle, WaitingForAnswer, TricklingIce, Stable; Responder: Idle,
/// TricklingIce, Stable), and Stable and Error have none.
pub proof fn lemma_handshake_is_a_chain(
    role: SignalingRole,
    from: SignalingState,
    to: SignalingState,
)
    requires
        !(to is Error),
    ensures
        is_valid_transition(role, from, to) <==> handshake_successor(role, from) == Some(to),
{
}

/// Every accepted move that is not a failure goes strictly forward along the
/// handshake, and none leaves the `Error` state: only `reset` does that.
pub proof fn lemma_handshake_moves_forward(
    role: SignalingRole,
    from: SignalingState,
    to: SignalingState,
)
    requires
        is_valid_transition(role, from, to),
        !(to is Error),
    ensures
        !(from is Error),
        handshake_rank(from) < handshake_rank(to),
{
}

/// A Responder never enters `WaitingForAnswer`: it skips that state.
pub proof fn lemma_responder_never_waits_for_answer(from: SignalingState)
    ensures
        !is_valid_transition(SignalingRole::Responder, from, SignalingState::WaitingForAnswer),
{
}

/// `Stable` is entered only from `TricklingIce`, for either role.
pub proof fn lemma_stable_only_after_trickling_ice(role: SignalingRole, from: SignalingState)
    ensures
        is_valid_transition(role, from, SignalingState::Stable) <==> from is TricklingIce,
{
}


/// The state after `advance(next)` from `from`: `next` when the move is
/// valid, `from` otherwise.
pub open spec fn advance_state(role: SignalingRole, from: SignalingState, next: SignalingState) -> SignalingState {
    if is_valid_transition(role, from, next) {
        next
    } else {
        from
    }
}

/// The state after the calls `advance(nexts[0])`, `advance(nexts[1])`, ...
/// from `from`, whatever each of them returned.
pub open spec fn after_advances(role: SignalingRole, from: SignalingState, nexts: Seq<SignalingState>) -> SignalingState
    decreases nexts.len(),
{
    if nexts.len() == 0 {
        from
    } else {
        advance_state(role, after_advances(role, from, nexts.drop_last()), nexts.last())
    }
}

/// `WaitingForAnswer` belongs to the Initiator: a Responder that starts
/// anywhere else never reaches it, over any sequence of `advance` calls.
pub proof fn lemma_responder_never_waits_over_any_run(from: SignalingState, nexts: Seq<SignalingState>)
    requires
        !(from is WaitingForAnswer),
    ensures
        !(after_advances(SignalingRole::Responder, from, nexts) is WaitingForAnswer),
    decreases nexts.len(),
{
    if nexts.len() > 0 {
        lemma_responder_never_waits_over_any_run(from, nexts.drop_last());
    }
}

} // verus!
