//! The peer session: one UDP endpoint that is bound, pointed at the STUN
//! server for the discovery, and then pointed at the peer for good.
//!
//! The session records which of these leases the endpoint is under, so that
//! the change of destination is a visible step. The program performs each
//! action on the real socket and reports the outcome.

use crate::discovery::DiscoveryError;
use crate::stun::address_view;
use crate::stun::MappedAddress;
use crate::stun::MappedAddressView;
use vstd::prelude::*;

verus! {

/// The local address that the endpoint is bound to.
pub const LOCAL_BIND_ADDRESS: &'static str = "0.0.0.0:7070";

/// What the endpoint is associated with.
#[derive(Clone, Copy, Debug, PartialEq, Eq, Structural)]
pub enum SocketRole {
    /// No socket yet.
    Unbound,
    /// Bound to the local address, without a destination.
    BoundLocal,
    /// The destination is the STUN server.
    AssociatedWithServer,
    /// The destination is the peer.
    AssociatedWithPeer,
}

/// Why a session could not be established.
#[derive(Clone, Copy, Debug, PartialEq, Eq, Structural)]
pub enum SessionError {
    /// The local address could not be bound.
    Bind,
    /// The public address could not be discovered.
    Discovery(DiscoveryError),
    /// The endpoint could not be pointed at the peer.
    Connect,
}

/// How far the establishment of a session has come.
#[derive(Clone, Copy, Debug, PartialEq, Eq, Structural)]
pub enum Stage {
    Created,
    Binding,
    Discovering,
    AwaitingPeer,
    Connecting,
    Ready,
    Failed(SessionError),
}

/// What a session is told.
#[derive(Clone, Debug, PartialEq, Eq)]
pub enum SessionEvent {
    /// The establishment is to start.
    Start,
    /// The endpoint was bound.
    Bound,
    /// The endpoint could not be bound.
    BindFailed,
    /// The endpoint was pointed at the STUN server and the request is out.
    ServerAssociated,
    /// The discovery gave this public address.
    Discovered(MappedAddress),
    /// The discovery failed.
    DiscoveryFailed(DiscoveryError),
    /// The user named the peer's address.
    PeerNamed(String),
    /// The endpoint was pointed at the peer.
    PeerAssociated,
    /// The endpoint could not be pointed at the peer.
    ConnectFailed,
}

/// What the program must do next for a session.
#[derive(Clone, Copy, Debug, PartialEq, Eq, Structural)]
pub enum SessionAction {
    /// Nothing.
    Nothing,
    /// Bind the endpoint to the local address.
    Bind,
    /// Run an address discovery on the endpoint.
    Discover,
    /// Show the public address to the user and ask for the peer's.
    AskPeer,
    /// Point the endpoint at the peer that was named.
    ConnectPeer,
    /// Start the receive loop and the console.
    Exchange,
    /// Give up.
    Abort(SessionError),
}

/// The mathematical value of a [`PeerSession`].
pub struct SessionView {
    pub stage: Stage,
    pub role: SocketRole,
    pub stun_server: Seq<char>,
    pub peer_address: Option<Seq<char>>,
    pub local_public_address: Option<MappedAddressView>,
}

impl SessionView {
    /// The destination that the endpoint is associated with, if any.
    pub open spec fn remote_address(self) -> Option<Seq<char>> {
        match self.role {
            SocketRole::AssociatedWithServer => Some(self.stun_server),
            SocketRole::AssociatedWithPeer => self.peer_address,
            _ => None,
        }
    }

    /// What holds of every session: the role fits the stage, the peer is
    /// the destination exactly when the session is ready, and what a stage
    /// relies on is there.
    pub open spec fn consistent(self) -> bool {
        &&& self.stage is Created || self.stage is Binding ==> self.role is Unbound
        &&& self.stage is Discovering ==> self.role is BoundLocal
            || self.role is AssociatedWithServer
        &&& self.stage is AwaitingPeer || self.stage is Connecting
            ==> self.role is AssociatedWithServer
        &&& self.stage is Ready <==> self.role is AssociatedWithPeer
        &&& self.stage is AwaitingPeer || self.stage is Connecting || self.stage is Ready
            ==> self.local_public_address is Some
        &&& self.stage is Connecting || self.stage is Ready ==> self.peer_address is Some
    }

    /// A session on which nothing was done yet.
    pub open spec fn created(stun_server: Seq<char>) -> SessionView {
        SessionView {
            stage: Stage::Created,
            role: SocketRole::Unbound,
            stun_server,
            peer_address: None,
            local_public_address: None,
        }
    }

    /// The session after an event. An event that the stage does not expect
    /// changes nothing; a discovered address counts only once the endpoint
    /// is pointed at the server.
    pub open spec fn next(self, event: SessionEvent) -> SessionView {
        match (self.stage, event) {
            (Stage::Created, SessionEvent::Start) => SessionView { stage: Stage::Binding, ..self },
            (Stage::Binding, SessionEvent::Bound) => SessionView {
                stage: Stage::Discovering,
                role: SocketRole::BoundLocal,
                ..self
            },
            (Stage::Binding, SessionEvent::BindFailed) => SessionView {
                stage: Stage::Failed(SessionError::Bind),
                ..self
            },
            (Stage::Discovering, SessionEvent::ServerAssociated) => SessionView {
                role: SocketRole::AssociatedWithServer,
                ..self
            },
            (Stage::Discovering, SessionEvent::Discovered(address)) => if self.role
                is AssociatedWithServer {
                SessionView {
                    stage: Stage::AwaitingPeer,
                    local_public_address: Some(address@),
                    ..self
                }
            } else {
                self
            },
            (Stage::Discovering, SessionEvent::DiscoveryFailed(e)) => SessionView {
                stage: Stage::Failed(SessionError::Discovery(e)),
                ..self
            },
            (Stage::AwaitingPeer, SessionEvent::PeerNamed(peer)) => SessionView {
                stage: Stage::Connecting,
                peer_address: Some(peer@),
                ..self
            },
            (Stage::Connecting, SessionEvent::PeerAssociated) => SessionView {
                stage: Stage::Ready,
                role: SocketRole::AssociatedWithPeer,
                ..self
            },
            (Stage::Connecting, SessionEvent::ConnectFailed) => SessionView {
                stage: Stage::Failed(SessionError::Connect),
                ..self
            },
            _ => self,
        }
    }

    /// What the program is asked to do in answer to an event.
    pub open spec fn action_for(self, event: SessionEvent) -> SessionAction {
        match (self.stage, event) {
            (Stage::Created, SessionEvent::Start) => SessionAction::Bind,
            (Stage::Binding, SessionEvent::Bound) => SessionAction::Discover,
            (Stage::Binding, SessionEvent::BindFailed) => SessionAction::Abort(SessionError::Bind),
            (Stage::Discovering, SessionEvent::Discovered(_)) => if self.role
                is AssociatedWithServer {
                SessionAction::AskPeer
            } else {
                SessionAction::Nothing
            },
            (Stage::Discovering, SessionEvent::DiscoveryFailed(e)) => SessionAction::Abort(
                SessionError::Discovery(e),
            ),
            (Stage::AwaitingPeer, SessionEvent::PeerNamed(_)) => SessionAction::ConnectPeer,
            (Stage::Connecting, SessionEvent::PeerAssociated) => SessionAction::Exchange,
            (Stage::Connecting, SessionEvent::ConnectFailed) => SessionAction::Abort(
                SessionError::Connect,
            ),
            _ => SessionAction::Nothing,
        }
    }

    /// The session after a sequence of events, first to last.
    pub open spec fn after(self, events: Seq<SessionEvent>) -> SessionView
        decreases events.len(),
    {
        if events.len() == 0 {
            self
        } else {
            self.after(events.drop_last()).next(events.last())
        }
    }
}

/// The value of a text that may be absent.
pub open spec fn text_view(text: Option<String>) -> Option<Seq<char>> {
    match text {
        Some(s) => Some(s@),
        None => None,
    }
}

/// The state of one peer session.
pub struct PeerSession {
    stage: Stage,
    role: SocketRole,
    stun_server: String,
    peer_address: Option<String>,
    local_public_address: Option<MappedAddress>,
}

impl View for PeerSession {
    type V = SessionView;

    closed spec fn view(&self) -> SessionView {
        SessionView {
            stage: self.stage,
            role: self.role,
            stun_server: self.stun_server@,
            peer_address: text_view(self.peer_address),
            local_public_address: address_view(self.local_public_address),
        }
    }
}

impl PeerSession {
    #[verifier::type_invariant]
    spec fn is_consistent(self) -> bool {
        self@.consistent()
    }

    /// A session that will discover its address through `stun_server`.
    pub fn new(stun_server: String) -> (session: PeerSession)
        ensures
            session@ == SessionView::created(stun_server@),
    {
        PeerSession {
            stage: Stage::Created,
            role: SocketRole::Unbound,
            stun_server,
            peer_address: None,
            local_public_address: None,
        }
    }

    /// How far the establishment has come.
    pub fn stage(&self) -> (r: Stage)
        ensures
            r == self@.stage,
            self@.consistent(),
    {
        proof {
            use_type_invariant(self);
        }
        self.stage
    }

    /// What the endpoint is associated with.
    pub fn role(&self) -> (r: SocketRole)
        ensures
            r == self@.role,
            self@.consistent(),
    {
        proof {
            use_type_invariant(self);
        }
        self.role
    }

    /// The address of the STUN server.
    pub fn stun_server(&self) -> (r: &String)
        ensures
            r@ == self@.stun_server,
    {
        &self.stun_server
    }

    /// The address of the peer, once the user has named it.
    pub fn peer_address(&self) -> (r: &Option<String>)
        ensures
            text_view(*r) == self@.peer_address,
    {
        &self.peer_address
    }

    /// The public address of the local endpoint, once it is discovered.
    pub fn local_public_address(&self) -> (r: &Option<MappedAddress>)
        ensures
            address_view(*r) == self@.local_public_address,
    {
        &self.local_public_address
    }

    /// The destination that the endpoint is associated with, if any.
    pub fn remote_address(&self) -> (r: Option<&String>)
        ensures
            match r {
                Some(text) => self@.remote_address() == Some(text@),
                None => self@.remote_address() is None,
            },
    {
        proof {
            use_type_invariant(self);
        }
        match self.role {
            SocketRole::AssociatedWithServer => Some(&self.stun_server),
            SocketRole::AssociatedWithPeer => self.peer_address.as_ref(),
            _ => None,
        }
    }

    /// Reacts to an event: gives the session in its next state and tells
    /// the program what to do.
    pub fn step(self, event: SessionEvent) -> (r: (PeerSession, SessionAction))
        ensures
            r.0@ == self@.next(event),
            r.1 == self@.action_for(event),
            r.0@.consistent(),
    {
        proof {
            use_type_invariant(&self);
        }
        let PeerSession { stage, role, stun_server, peer_address, local_public_address } = self;
        match stage {
            Stage::Created => match event {
                SessionEvent::Start => (
                    PeerSession {
                        stage: Stage::Binding,
                        role,
                        stun_server,
                        peer_address,
                        local_public_address,
                    },
                    SessionAction::Bind,
                ),
                _ => (
                    PeerSession { stage, role, stun_server, peer_address, local_public_address },
                    SessionAction::Nothing,
                ),
            },
            Stage::Binding => match event {
                SessionEvent::Bound => (
                    PeerSession {
                        stage: Stage::Discovering,
                        role: SocketRole::BoundLocal,
                        stun_server,
                        peer_address,
                        local_public_address,
                    },
                    SessionAction::Discover,
                ),
                SessionEvent::BindFailed => (
                    PeerSession {
                        stage: Stage::Failed(SessionError::Bind),
                        role,
                        stun_server,
                        peer_address,
                        local_public_address,
                    },
                    SessionAction::Abort(SessionError::Bind),
                ),
                _ => (
                    PeerSession { stage, role, stun_server, peer_address, local_public_address },
                    SessionAction::Nothing,
                ),
            },
            Stage::Discovering => match event {
                SessionEvent::ServerAssociated => (
                    PeerSession {
                        stage,
                        role: SocketRole::AssociatedWithServer,
                        stun_server,
                        peer_address,
                        local_public_address,
                    },
                    SessionAction::Nothing,
                ),
                SessionEvent::Discovered(address) => {
                    if role == SocketRole::AssociatedWithServer {
                        (
                            PeerSession {
                                stage: Stage::AwaitingPeer,
                                role,
                                stun_server,
                                peer_address,
                                local_public_address: Some(address),
                            },
                            SessionAction::AskPeer,
                        )
                    } else {
                        (
                            PeerSession {
                                stage,
                                role,
                                stun_server,
                                peer_address,
                                local_public_address,
                            },
                            SessionAction::Nothing,
                        )
                    }
                },
                SessionEvent::DiscoveryFailed(e) => (
                    PeerSession {
                        stage: Stage::Failed(SessionError::Discovery(e)),
                        role,
                        stun_server,
                        peer_address,
                        local_public_address,
                    },
                    SessionAction::Abort(SessionError::Discovery(e)),
                ),
                _ => (
                    PeerSession { stage, role, stun_server, peer_address, local_public_address },
                    SessionAction::Nothing,
                ),
            },
            Stage::AwaitingPeer => match event {
                SessionEvent::PeerNamed(peer) => (
                    PeerSession {
                        stage: Stage::Connecting,
                        role,
                        stun_server,
                        peer_address: Some(peer),
                        local_public_address,
                    },
                    SessionAction::ConnectPeer,
                ),
                _ => (
                    PeerSession { stage, role, stun_server, peer_address, local_public_address },
                    SessionAction::Nothing,
                ),
            },
            Stage::Connecting => match event {
                SessionEvent::PeerAssociated => (
                    PeerSession {
                        stage: Stage::Ready,
                        role: SocketRole::AssociatedWithPeer,
                        stun_server,
                        peer_address,
                        local_public_address,
                    },
                    SessionAction::Exchange,
                ),
                SessionEvent::ConnectFailed => (
                    PeerSession {
                        stage: Stage::Failed(SessionError::Connect),
                        role,
                        stun_server,
                        peer_address,
                        local_public_address,
                    },
                    SessionAction::Abort(SessionError::Connect),
                ),
                _ => (
                    PeerSession { stage, role, stun_server, peer_address, local_public_address },
                    SessionAction::Nothing,
                ),
            },
            _ => (
                PeerSession { stage, role, stun_server, peer_address, local_public_address },
                SessionAction::Nothing,
            ),
        }
    }
}

/// A step keeps a consistent session consistent.
pub proof fn lemma_step_keeps_consistency(session: SessionView, event: SessionEvent)
    requires
        session.consistent(),
    ensures
        session.next(event).consistent(),
{
}

/// Whatever the program reports, in whatever order, a session that has
/// become ready has exactly one destination, the peer that the user named,
/// and knows its public address.
pub proof fn lemma_ready_session_points_at_peer(stun_server: Seq<char>, events: Seq<SessionEvent>)
    ensures
        ({
            let session = SessionView::created(stun_server).after(events);
            &&& session.consistent()
            &&& session.stage is Ready ==> {
                &&& session.role is AssociatedWithPeer
                &&& session.peer_address is Some
                &&& session.remote_address() == session.peer_address
                &&& session.local_public_address is Some
            }
        }),
    decreases events.len(),
{
    if events.len() > 0 {
        lemma_ready_session_points_at_peer(stun_server, events.drop_last());
        lemma_step_keeps_consistency(
            SessionView::created(stun_server).after(events.drop_last()),
            events.last(),
        );
    }
}

} // verus!
