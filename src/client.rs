//! The local peer identifier, and the per-peer handshake state machine with the
//! orchestrator that runs one machine per candidate peer.

use vstd::prelude::*;

use crate::p2p::{
    compatible, decode_handshake, deserialize_peer_handshake, encode_handshake,
    gen_peer_handshake, handshakes_compatible, local_handshake, serialize_peer_handshake,
    HandshakeModel, PeerHandshake, HANDSHAKE_BYTE_SIZE,
};
use crate::text::push_char;

verus! {

/// Width in bytes of a peer identifier.
pub const PEER_ID_WIDTH: usize = 20;

/// `s` cut to its first `width` characters, or left-padded with `'0'` up to `width`.
pub open spec fn truncated_or_padded(s: Seq<char>, width: nat) -> Seq<char> {
    if s.len() > width {
        s.subrange(0, width as int)
    } else {
        Seq::new((width - s.len()) as nat, |i: int| '0') + s
    }
}

/// The name this client derives its peer identifier from.
pub open spec fn client_name() -> Seq<char> {
    "animate-test"@
}

/// The identifier this client announces, as text.
pub open spec fn local_peer_id() -> Seq<char> {
    truncated_or_padded(client_name(), PEER_ID_WIDTH as nat)
}

/// Fits `candidate` to exactly `width` characters: longer input keeps its first `width`
/// characters, shorter input gets `'0'` characters prepended.
pub fn truncate_or_pad(candidate: &str, width: usize) -> (r: String)
    ensures
        r@ == truncated_or_padded(candidate@, width as nat),
{
    let len = candidate.unicode_len();
    if len > width {
        String::from_str(candidate.substring_char(0, width))
    } else {
        let mut s = String::new();
        let mut i: usize = 0;
        while i < width - len
            invariant
                len == candidate@.len(),
                len <= width,
                i <= width - len,
                s@ == Seq::new(i as nat, |k: int| '0'),
            decreases width - len - i,
        {
            push_char(&mut s, '0');
            i += 1;
            assert(s@ =~= Seq::new(i as nat, |k: int| '0'));
        }
        s.append(candidate);
        s
    }
}

/// The 20-character identifier this client announces to trackers and peers.
pub fn gen_peer_id() -> (r: String)
    ensures
        r@ == local_peer_id(),
        r@.len() == PEER_ID_WIDTH,
{
    truncate_or_pad("animate-test", PEER_ID_WIDTH)
}

/// The announced identifier as the 20 bytes sent in a handshake.
pub fn gen_peer_id_bytes() -> (r: [u8; 20])
    ensures
        r@ == Seq::new(20, |i: int| local_peer_id()[i] as u8),
{
    let id = gen_peer_id();
    let mut bytes: [u8; 20] = [0u8; 20];
    for i in 0..20
        invariant
            id@ == local_peer_id(),
            id@.len() == 20,
            forall|j: int| 0 <= j < i ==> bytes@[j] == local_peer_id()[j] as u8,
    {
        let c = id.as_str().get_char(i);
        bytes[i] = c as u8;
    }
    assert(bytes@ =~= Seq::new(20, |i: int| local_peer_id()[i] as u8));
    bytes
}

/// The result always has the requested width; input of exactly that width is kept,
/// longer input is cut to its prefix, and shorter input is preceded by `'0'` characters.
pub proof fn lemma_truncate_or_pad_width(s: Seq<char>, width: nat)
    ensures
        truncated_or_padded(s, width).len() == width,
        s.len() == width ==> truncated_or_padded(s, width) == s,
        s.len() > width ==> truncated_or_padded(s, width) == s.subrange(0, width as int),
        s.len() < width ==> truncated_or_padded(s, width).subrange(
            (width - s.len()) as int,
            width as int,
        ) == s,
        forall|i: int|
            0 <= i < width - s.len() ==> #[trigger] truncated_or_padded(s, width)[i] == '0',
{
    if s.len() == width {
        assert(truncated_or_padded(s, width) =~= s);
    }
    if s.len() < width {
        assert(truncated_or_padded(s, width).subrange((width - s.len()) as int, width as int)
            =~= s);
    }
}


/// Why a handshake with one peer did not succeed.
#[derive(PartialEq, Eq, Structural, Clone, Copy, Debug)]
pub enum HandshakeFailure {
    /// The connection could not be made, or broke while the local handshake was sent.
    Unreachable,
    /// Fewer than a full handshake's bytes came back before the connection ended.
    ShortRead,
    /// The peer's handshake names other content than the local one.
    ContentMismatch,
}

/// Where one peer's handshake stands.
#[derive(PartialEq, Eq, Structural, Clone, Copy, Debug)]
pub enum HandshakeState {
    /// Waiting for the transport connection.
    Connecting,
    /// Connected; the local handshake is to be written.
    Sending,
    /// The local handshake was written; the peer's reply is to be read.
    Receiving,
    /// The peer answered with a compatible handshake.
    Authenticated,
    /// The attempt ended without success.
    Failed(HandshakeFailure),
}

/// What the transport reports back to the state machine.
#[derive(Debug)]
pub enum HandshakeEvent {
    Connected,
    ConnectFailed,
    Sent,
    SendFailed,
    /// The bytes read for the peer's reply.
    Received(Vec<u8>),
    /// The read ended in an error or a closed connection.
    ReceiveFailed,
}

/// What the transport is to do next.
#[derive(PartialEq, Eq, Structural, Clone, Copy, Debug)]
pub enum HandshakeAction {
    /// Write the local handshake in full.
    SendHandshake,
    /// Read exactly one handshake's worth of bytes.
    ReceiveHandshake,
    /// Hand the authenticated connection to the caller.
    KeepConnection,
    /// Close and drop the connection.
    CloseConnection,
}

impl HandshakeState {
    pub open spec fn is_terminal(self) -> bool {
        self is Authenticated || self is Failed
    }
}

/// The state that follows `state` when `event` arrives; an event that the state does
/// not wait for changes nothing.
pub open spec fn next_state(state: HandshakeState, local: HandshakeModel, event: &HandshakeEvent)
    -> HandshakeState {
    match (state, event) {
        (HandshakeState::Connecting, HandshakeEvent::Connected) => HandshakeState::Sending,
        (HandshakeState::Connecting, HandshakeEvent::ConnectFailed) => HandshakeState::Failed(
            HandshakeFailure::Unreachable,
        ),
        (HandshakeState::Sending, HandshakeEvent::Sent) => HandshakeState::Receiving,
        (HandshakeState::Sending, HandshakeEvent::SendFailed) => HandshakeState::Failed(
            HandshakeFailure::Unreachable,
        ),
        (HandshakeState::Receiving, HandshakeEvent::ReceiveFailed) => HandshakeState::Failed(
            HandshakeFailure::ShortRead,
        ),
        (HandshakeState::Receiving, HandshakeEvent::Received(bytes)) => {
            if bytes@.len() != HANDSHAKE_BYTE_SIZE {
                HandshakeState::Failed(HandshakeFailure::ShortRead)
            } else if compatible(local, decode_handshake(bytes@)) {
                HandshakeState::Authenticated
            } else {
                HandshakeState::Failed(HandshakeFailure::ContentMismatch)
            }
        },
        _ => state,
    }
}

/// The action that entering `state` calls for.
pub open spec fn action_for(state: HandshakeState) -> Option<HandshakeAction> {
    match state {
        HandshakeState::Connecting => None,
        HandshakeState::Sending => Some(HandshakeAction::SendHandshake),
        HandshakeState::Receiving => Some(HandshakeAction::ReceiveHandshake),
        HandshakeState::Authenticated => Some(HandshakeAction::KeepConnection),
        HandshakeState::Failed(_) => Some(HandshakeAction::CloseConnection),
    }
}

/// The handshake with one peer: the local handshake it offers and how far it got.
#[derive(Debug)]
pub struct HandshakeSession {
    pub local: PeerHandshake,
    pub state: HandshakeState,
}

impl HandshakeSession {
    /// A session that has not connected yet, offering the handshake built from the
    /// local peer identifier and content identifier.
    pub fn new(peer_id_bytes: [u8; 20], metainfo_hash_bytes: [u8; 20]) -> (r: HandshakeSession)
        ensures
            r.local@ == local_handshake(peer_id_bytes@, metainfo_hash_bytes@),
            r.state == HandshakeState::Connecting,
    {
        HandshakeSession {
            local: gen_peer_handshake(peer_id_bytes, metainfo_hash_bytes),
            state: HandshakeState::Connecting,
        }
    }

    /// The bytes to write when the action is `SendHandshake`.
    pub fn handshake_bytes(&self) -> (r: [u8; HANDSHAKE_BYTE_SIZE])
        ensures
            r@ == encode_handshake(self.local@),
    {
        serialize_peer_handshake(&self.local)
    }

    /// Moves the session on by one event. Returns the action the new state calls for,
    /// or `None` when the event was not one the session waited for.
    pub fn on_event(&mut self, event: HandshakeEvent) -> (r: Option<HandshakeAction>)
        ensures
            final(self).local == old(self).local,
            final(self).state == next_state(old(self).state, old(self).local@, &event),
            r == (if final(self).state == old(self).state {
                None
            } else {
                action_for(final(self).state)
            }),
    {
        let next = match (self.state, &event) {
            (HandshakeState::Connecting, HandshakeEvent::Connected) => HandshakeState::Sending,
            (HandshakeState::Connecting, HandshakeEvent::ConnectFailed) => HandshakeState::Failed(
                HandshakeFailure::Unreachable,
            ),
            (HandshakeState::Sending, HandshakeEvent::Sent) => HandshakeState::Receiving,
            (HandshakeState::Sending, HandshakeEvent::SendFailed) => HandshakeState::Failed(
                HandshakeFailure::Unreachable,
            ),
            (HandshakeState::Receiving, HandshakeEvent::ReceiveFailed) => HandshakeState::Failed(
                HandshakeFailure::ShortRead,
            ),
            (HandshakeState::Receiving, HandshakeEvent::Received(bytes)) => {
                if bytes.len() != HANDSHAKE_BYTE_SIZE {
                    HandshakeState::Failed(HandshakeFailure::ShortRead)
                } else {
                    let received = deserialize_peer_handshake(bytes.as_slice());
                    if handshakes_compatible(&self.local, &received) {
                        HandshakeState::Authenticated
                    } else {
                        HandshakeState::Failed(HandshakeFailure::ContentMismatch)
                    }
                }
            },
            _ => self.state,
        };
        if next == self.state {
            None
        } else {
            self.state = next;
            match next {
                HandshakeState::Connecting => None,
                HandshakeState::Sending => Some(HandshakeAction::SendHandshake),
                HandshakeState::Receiving => Some(HandshakeAction::ReceiveHandshake),
                HandshakeState::Authenticated => Some(HandshakeAction::KeepConnection),
                HandshakeState::Failed(_) => Some(HandshakeAction::CloseConnection),
            }
        }
    }

    /// The final result, once the session has ended.
    pub fn outcome(&self) -> (r: Option<Result<(), HandshakeFailure>>)
        ensures
            r == session_outcome(self.state),
    {
        match self.state {
            HandshakeState::Authenticated => Some(Ok(())),
            HandshakeState::Failed(f) => Some(Err(f)),
            _ => None,
        }
    }
}

/// `Ok` for an authenticated session, the failure for a failed one, nothing before the end.
pub open spec fn session_outcome(state: HandshakeState) -> Option<Result<(), HandshakeFailure>> {
    match state {
        HandshakeState::Authenticated => Some(Ok(())),
        HandshakeState::Failed(f) => Some(Err(f)),
        _ => None,
    }
}


/// The states of a batch after `event` reached peer `index`: that peer moves on, every
/// other peer keeps its state.
pub open spec fn step_peer(
    states: Seq<HandshakeState>,
    local: HandshakeModel,
    index: int,
    event: &HandshakeEvent,
) -> Seq<HandshakeState> {
    states.update(index, next_state(states[index], local, event))
}

/// One handshake session per candidate peer, each moved on only by its own events.
#[derive(Debug)]
pub struct Orchestrator {
    pub local: PeerHandshake,
    pub sessions: Vec<HandshakeSession>,
}

impl Orchestrator {
    /// The sessions' states, in peer order.
    pub open spec fn states(&self) -> Seq<HandshakeState> {
        Seq::new(self.sessions@.len(), |i: int| self.sessions@[i].state)
    }

    /// Every session offers the orchestrator's handshake.
    pub open spec fn wf(&self) -> bool {
        forall|i: int| 0 <= i < self.sessions@.len() ==> #[trigger] self.sessions@[i].local@
            == self.local@
    }

    /// A batch of `peer_count` sessions, none of them connected yet.
    pub fn new(peer_count: usize, peer_id_bytes: [u8; 20], metainfo_hash_bytes: [u8; 20]) -> (r:
        Orchestrator)
        ensures
            r.wf(),
            r.local@ == local_handshake(peer_id_bytes@, metainfo_hash_bytes@),
            r.sessions@.len() == peer_count,
            forall|i: int| 0 <= i < peer_count ==> #[trigger] r.states()[i]
                == HandshakeState::Connecting,
    {
        let mut sessions: Vec<HandshakeSession> = Vec::new();
        for i in 0..peer_count
            invariant
                sessions@.len() == i,
                forall|j: int|
                    0 <= j < i ==> (#[trigger] sessions@[j]).local@ == local_handshake(
                        peer_id_bytes@,
                        metainfo_hash_bytes@,
                    ) && sessions@[j].state == HandshakeState::Connecting,
        {
            sessions.push(HandshakeSession::new(peer_id_bytes, metainfo_hash_bytes));
        }
        let r = Orchestrator {
            local: gen_peer_handshake(peer_id_bytes, metainfo_hash_bytes),
            sessions,
        };
        assert forall|i: int| 0 <= i < peer_count implies #[trigger] r.states()[i]
            == HandshakeState::Connecting by {
            assert(r.sessions@[i].state == HandshakeState::Connecting);
        }
        r
    }

    /// Hands `event` to the session of peer `index` alone.
    pub fn on_peer_event(&mut self, index: usize, event: HandshakeEvent) -> (r: Option<
        HandshakeAction,
    >)
        requires
            old(self).wf(),
            index < old(self).sessions@.len(),
        ensures
            final(self).wf(),
            final(self).local == old(self).local,
            final(self).sessions@.len() == old(self).sessions@.len(),
            final(self).states() == step_peer(old(self).states(), old(self).local@, index as int, &event),
            r == (if final(self).states()[index as int] == old(self).states()[index as int] {
                None
            } else {
                action_for(final(self).states()[index as int])
            }),
    {
        let ghost before = self.states();
        let mut session = self.sessions.remove(index);
        let r = session.on_event(event);
        self.sessions.insert(index, session);
        assert(self.states() =~= step_peer(before, self.local@, index as int, &event));
        r
    }

    /// The handshake bytes every session sends.
    pub fn handshake_bytes(&self) -> (r: [u8; HANDSHAKE_BYTE_SIZE])
        ensures
            r@ == encode_handshake(self.local@),
    {
        serialize_peer_handshake(&self.local)
    }

    /// Whether every session has ended, so that the batch is complete.
    pub fn is_complete(&self) -> (r: bool)
        ensures
            r == forall|i: int| 0 <= i < self.sessions@.len() ==> (#[trigger] self.states()[i]).is_terminal(),
    {
        let mut i: usize = 0;
        while i < self.sessions.len()
            invariant
                i <= self.sessions@.len(),
                forall|j: int| 0 <= j < i ==> (#[trigger] self.states()[j]).is_terminal(),
            decreases self.sessions@.len() - i,
        {
            let st = self.sessions[i].state;
            match st {
                HandshakeState::Authenticated => {},
                HandshakeState::Failed(_) => {},
                _ => {
                    assert(!self.states()[i as int].is_terminal());
                    return false;
                },
            }
            i += 1;
        }
        true
    }

    /// One result per peer, in peer order: `None` for a session that has not ended.
    pub fn outcomes(&self) -> (r: Vec<Option<Result<(), HandshakeFailure>>>)
        ensures
            r@.len() == self.sessions@.len(),
            forall|i: int| 0 <= i < r@.len() ==> #[trigger] r@[i] == session_outcome(self.states()[i]),
    {
        let mut r: Vec<Option<Result<(), HandshakeFailure>>> = Vec::new();
        for i in 0..self.sessions.len()
            invariant
                r@.len() == i,
                forall|j: int| 0 <= j < i ==> #[trigger] r@[j] == session_outcome(self.states()[j]),
        {
            r.push(self.sessions[i].outcome());
        }
        r
    }
}

/// An event for one peer leaves every other peer's state as it was, so a failed attempt
/// neither ends nor alters the attempts with the other peers.
pub proof fn lemma_peer_attempts_isolated(
    states: Seq<HandshakeState>,
    local: HandshakeModel,
    index: int,
    event: &HandshakeEvent,
    other: int,
)
    requires
        0 <= index < states.len(),
        0 <= other < states.len(),
        other != index,
    ensures
        step_peer(states, local, index, event).len() == states.len(),
        step_peer(states, local, index, event)[other] == states[other],
        step_peer(states, local, index, event)[index] == next_state(states[index], local, event),
{
}

/// Once a session has ended, no further event changes it.
pub proof fn lemma_terminal_states_stay(state: HandshakeState, local: HandshakeModel, event: &HandshakeEvent)
    requires
        state.is_terminal(),
    ensures
        next_state(state, local, event) == state,
{
}

} // verus!
