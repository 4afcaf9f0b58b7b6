//! The broadcast/listen side of the session protocol: the decisions behind
//! sending one `Event` packet per datagram to a multicast group, and behind
//! the listener loop that decodes whatever datagrams arrive.
//!
//! The sockets themselves (binding, joining the group, sending and receiving
//! datagrams) live outside the library; what stands here is the exact
//! datagram each event produces, and the listener's decision for each
//! received datagram — a malformed datagram or a non-event packet is skipped,
//! never fatal to the loop.

use crate::protocol::{
    lemma_packet_round_trip, spec_packet_bytes, spec_packet_valid, spec_read_packet, ByteReader,
    Event, Packet, PacketView,
};
use vstd::prelude::*;

verus! {

/// A failure of the notification layer. The causes reported by the transport
/// are carried as plain text.
#[derive(Debug, Clone, PartialEq, Eq)]
pub enum Error {
    /// A failure of the notifier itself.
    Generic(&'static str),
    /// A failure of the notifier with an underlying cause.
    GenericWithCause(&'static str, String),
    /// The notifier's configuration is missing or invalid.
    Config(String),
    /// The transport failed.
    Io(String),
    /// Any other underlying failure.
    Other(String),
}

/// The bytes of the one datagram that broadcasts `event`: exactly one
/// encoded `Event` packet, nothing more.
pub fn datagram_for_event(event: Event) -> (v: Vec<u8>)
    ensures
        v@ == spec_packet_bytes(PacketView::Event(event)),
{
    let mut v: Vec<u8> = Vec::new();
    let packet = Packet::Event(event);
    let r = packet.write(&mut v);
    proof {
        assert(r is Ok);
        assert(v@ =~= spec_packet_bytes(PacketView::Event(event)));
    }
    v
}

/// The listener's decision for one received datagram.
pub open spec fn spec_event_of_datagram(b: Seq<u8>) -> Option<Event> {
    match spec_read_packet(b) {
        Ok((PacketView::Event(e), _)) => Some(e),
        _ => None,
    }
}

/// Decides what one received datagram means to the listener: the event to
/// hand to the registered callback when the datagram decodes to an `Event`
/// packet, and nothing otherwise. Trailing bytes after the packet are
/// ignored, and no datagram — malformed, truncated, or carrying a non-event
/// packet — is an error: the listen loop always continues.
pub fn event_from_datagram(buf: &[u8]) -> (r: Option<Event>)
    ensures
        r == spec_event_of_datagram(buf@),
{
    let mut reader = ByteReader::new(buf);
    match Packet::read(&mut reader) {
        Ok(Packet::Event(e)) => Some(e),
        Ok(_) => None,
        Err(_) => None,
    }
}

// ---------------------------------------------------------------------------
// Laws of the listener.
// ---------------------------------------------------------------------------

/// **Listener resilience, delivering half.** A datagram that carries an
/// encoded `Event` packet is delivered as exactly that event, whatever
/// trailing bytes the datagram carries.
pub proof fn lemma_listener_delivers_events(event: Event, rest: Seq<u8>)
    ensures
        spec_event_of_datagram(spec_packet_bytes(PacketView::Event(event)) + rest) == Some(event),
{
    lemma_packet_round_trip(PacketView::Event(event), rest);
}

/// **Listener resilience, skipping half.** A datagram that carries any
/// well-formed non-event packet is skipped; so, by the ensures of
/// [`event_from_datagram`], is any datagram that does not decode at all.
pub proof fn lemma_listener_skips_non_events(p: PacketView, rest: Seq<u8>)
    requires
        spec_packet_valid(p),
        !(p is Event),
    ensures
        spec_event_of_datagram(spec_packet_bytes(p) + rest) is None,
{
    lemma_packet_round_trip(p, rest);
}

} // verus!
