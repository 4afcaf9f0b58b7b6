//! The session protocol: the decisions behind the one-shot request/response
//! exchange between a client and the server.
//!
//! The transport (accepting connections, reading and writing the byte
//! streams, invoking the renewer and notifier capabilities) lives outside the
//! library; what stands here is every decision the two peers take: which
//! packet a client sends for its configured action, how the server answers
//! each request under its availability gate, which fixed client-safe message
//! replaces an internal failure, and how a client reads the reply.

use crate::protocol::{AvailabilityView, Packet, PacketView, RenewAvailability};
use vstd::prelude::*;
use vstd::string::*;

verus! {

// ---------------------------------------------------------------------------
// Server side.
// ---------------------------------------------------------------------------

/// What the server does next after reading one request packet.
#[derive(Debug, Clone, PartialEq, Eq)]
pub enum ServerStep {
    /// Write this packet back and close the connection.
    Reply(Packet),
    /// Invoke the renewal action, then reply per its outcome
    /// (see [`renew_response`]).
    Renew,
}

/// Mathematical model of a [`ServerStep`] value.
pub enum ServerStepView {
    Reply(PacketView),
    Renew,
}

impl View for ServerStep {
    type V = ServerStepView;

    open spec fn view(&self) -> ServerStepView {
        match self {
            ServerStep::Reply(p) => ServerStepView::Reply(p@),
            ServerStep::Renew => ServerStepView::Renew,
        }
    }
}

/// The error message the availability gate sends for `reason`.
pub open spec fn spec_gate_message(reason: Seq<char>) -> Seq<char> {
    "Renewal unavailable: "@ + reason
}

/// The server's whole decision for one request packet: the availability
/// state it keeps afterwards, and the step it takes.
///
/// - `FreshIPRequest` under an `Unavailable` state short-circuits to an
///   `Error` reply carrying the reason, without invoking the renewal action;
///   under `Available` it proceeds to the renewal action.
/// - `SetRenewingAvailable` replaces the state and unconditionally replies
///   `Okay`.
/// - Any packet the request endpoint does not expect is answered with a
///   descriptive `Error` reply, never with silence or a panic.
pub open spec fn spec_server_step(state: AvailabilityView, p: PacketView) -> (
    AvailabilityView,
    ServerStepView,
) {
    match p {
        PacketView::FreshIPRequest => match state {
            AvailabilityView::Available => (state, ServerStepView::Renew),
            AvailabilityView::Unavailable(reason) => (
                state,
                ServerStepView::Reply(PacketView::Error(spec_gate_message(reason))),
            ),
        },
        PacketView::SetRenewingAvailable(a) => (a, ServerStepView::Reply(PacketView::Okay)),
        _ => (state, ServerStepView::Reply(PacketView::Error("Unsupported packet"@))),
    }
}

/// The server's in-memory session state: the availability gate, initialized
/// to `Available` at start and mutated only by a `SetRenewingAvailable`
/// packet.
pub struct Server {
    availability: RenewAvailability,
}

impl View for Server {
    type V = AvailabilityView;

    closed spec fn view(&self) -> AvailabilityView {
        self.availability@
    }
}

impl Server {
    /// A fresh server: renewal starts out available.
    pub fn new() -> (s: Server)
        ensures
            s@ == AvailabilityView::Available,
    {
        Server { availability: RenewAvailability::Available }
    }

    /// The current availability gate.
    pub fn availability(&self) -> (a: &RenewAvailability)
        ensures
            a@ == self@,
    {
        &self.availability
    }

    /// Takes the server's decision for one decoded request packet, updating
    /// the availability gate as [`spec_server_step`] describes.
    pub fn on_request(&mut self, p: Packet) -> (step: ServerStep)
        ensures
            (final(self)@, step@) == spec_server_step(old(self)@, p@),
    {
        match p {
            Packet::FreshIPRequest => match &self.availability {
                RenewAvailability::Available => ServerStep::Renew,
                RenewAvailability::Unavailable(reason) => {
                    let mut msg = "Renewal unavailable: ".to_owned();
                    msg.append(reason.as_str());
                    ServerStep::Reply(Packet::Error(msg))
                },
            },
            Packet::SetRenewingAvailable(a) => {
                self.availability = a;
                ServerStep::Reply(Packet::Okay)
            },
            _ => ServerStep::Reply(Packet::Error("Unsupported packet".to_owned())),
        }
    }
}

/// How one invocation of the renewal action ended, as the transport layer
/// reports it back to the session.
#[derive(Debug, Clone, Copy, PartialEq, Eq, Structural)]
pub enum RenewOutcome {
    /// The renewal action and the follow-up notification both succeeded.
    Renewed,
    /// The renewal action itself failed.
    RenewerFailed,
    /// The renewal succeeded but broadcasting the event did not.
    NotifierFailed,
}

/// The reply owed for each renewal outcome. Internal failure causes are
/// never disclosed to the peer: only one of two fixed category messages
/// crosses the boundary.
pub open spec fn spec_renew_response(o: RenewOutcome) -> PacketView {
    match o {
        RenewOutcome::Renewed => PacketView::Okay,
        RenewOutcome::RenewerFailed => PacketView::Error("failed to renew the IP address"@),
        RenewOutcome::NotifierFailed => PacketView::Error("failed to send notifications"@),
    }
}

/// The packet the server writes back after taking the [`ServerStep::Renew`]
/// step: `Okay` on success, else a fixed client-safe category message that
/// discloses no internal cause.
pub fn renew_response(outcome: RenewOutcome) -> (p: Packet)
    ensures
        p@ == spec_renew_response(outcome),
{
    match outcome {
        RenewOutcome::Renewed => Packet::Okay,
        RenewOutcome::RenewerFailed => Packet::Error("failed to renew the IP address".to_owned()),
        RenewOutcome::NotifierFailed => Packet::Error("failed to send notifications".to_owned()),
    }
}

/// The packet the server writes back when the incoming request cannot be
/// decoded: a fixed message naming no internal cause.
pub fn decode_failure_response() -> (p: Packet)
    ensures
        p@ == PacketView::Error("invalid packet"@),
{
    Packet::Error("invalid packet".to_owned())
}

// ---------------------------------------------------------------------------
// Client side.
// ---------------------------------------------------------------------------

/// What a client invocation is asked to do.
#[derive(Debug, Clone, PartialEq, Eq)]
pub enum ClientAction {
    /// Send a `FreshIPRequest` to the server.
    RenewIP,
    /// Send the server a new availability gate value.
    SetRenewingAvailability(RenewAvailability),
    /// Listen for broadcast notifications instead of contacting the server.
    SubscribeToNotifications,
}

/// The client's configuration: where to connect, and what to do.
#[derive(Debug, Clone, PartialEq, Eq)]
pub struct ClientConfig {
    pub connect_to: String,
    pub action: ClientAction,
}

/// The one request packet a client action calls for, or none when the action
/// is served by listening rather than by a request/response exchange.
pub fn packet_for_action(action: ClientAction) -> (r: Option<Packet>)
    ensures
        match action {
            ClientAction::RenewIP => r matches Some(p) && p@ == PacketView::FreshIPRequest,
            ClientAction::SetRenewingAvailability(a) => r matches Some(p) && p@
                == PacketView::SetRenewingAvailable(a@),
            ClientAction::SubscribeToNotifications => r is None,
        },
{
    match action {
        ClientAction::RenewIP => Some(Packet::FreshIPRequest),
        ClientAction::SetRenewingAvailability(a) => Some(Packet::SetRenewingAvailable(a)),
        ClientAction::SubscribeToNotifications => None,
    }
}

/// What the one response packet of an exchange means to the client.
#[derive(Debug, Clone, PartialEq, Eq)]
pub enum ResponseInterpretation {
    /// The server replied `Okay`: the action completed.
    Completed,
    /// The server replied `Error`: the action failed for this reason.
    Failed(String),
    /// The server sent a packet no response should carry.
    Unexpected(Packet),
}

/// Classifies the single response packet of a request/response exchange, so
/// that a server-reported failure is distinguished from a malformed reply.
pub fn interpret_response(response: Packet) -> (r: ResponseInterpretation)
    ensures
        match response@ {
            PacketView::Okay => r is Completed,
            PacketView::Error(m) => r matches ResponseInterpretation::Failed(s) && s@ == m,
            _ => r matches ResponseInterpretation::Unexpected(p) && p@ == response@,
        },
{
    match response {
        Packet::Okay => ResponseInterpretation::Completed,
        Packet::Error(msg) => ResponseInterpretation::Failed(msg),
        other => ResponseInterpretation::Unexpected(other),
    }
}

// ---------------------------------------------------------------------------
// Laws of the session.
// ---------------------------------------------------------------------------

/// **Availability gate.** Under an `Unavailable(reason)` state a
/// `FreshIPRequest` is answered with an `Error` reply carrying that reason
/// and the renewal action is not invoked; under `Available` the renewal
/// action is invoked, and a successful outcome is answered with `Okay`. The
/// state itself is untouched either way.
pub proof fn lemma_availability_gate(state: AvailabilityView)
    ensures
        state matches AvailabilityView::Unavailable(reason) ==> spec_server_step(
            state,
            PacketView::FreshIPRequest,
        ) == (state, ServerStepView::Reply(PacketView::Error(spec_gate_message(reason)))),
        state is Available ==> spec_server_step(state, PacketView::FreshIPRequest) == (
            state,
            ServerStepView::Renew,
        ),
        spec_renew_response(RenewOutcome::Renewed) == PacketView::Okay,
{
}

/// **State stability.** The availability state is mutated by a
/// `SetRenewingAvailable` packet, which replaces it with the carried value,
/// and by nothing else: every other packet leaves it exactly as it was.
pub proof fn lemma_only_set_mutates_availability(state: AvailabilityView, p: PacketView)
    ensures
        !(p is SetRenewingAvailable) ==> spec_server_step(state, p).0 == state,
        p matches PacketView::SetRenewingAvailable(a) ==> spec_server_step(state, p).0 == a,
{
}

/// **Availability update.** A `SetRenewingAvailable(Unavailable(reason))`
/// request replaces the server's state and is answered `Okay`; a
/// `FreshIPRequest` that follows is then refused with an `Error` reply
/// carrying that reason.
pub proof fn lemma_set_unavailable_then_request(s0: AvailabilityView, reason: Seq<char>)
    ensures
        ({
            let (s1, r1) = spec_server_step(
                s0,
                PacketView::SetRenewingAvailable(AvailabilityView::Unavailable(reason)),
            );
            &&& s1 == AvailabilityView::Unavailable(reason)
            &&& r1 == ServerStepView::Reply(PacketView::Okay)
            &&& spec_server_step(s1, PacketView::FreshIPRequest) == (
                s1,
                ServerStepView::Reply(PacketView::Error(spec_gate_message(reason))),
            )
        }),
{
}

} // verus!
