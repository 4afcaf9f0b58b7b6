use oxixenon::notifier::{datagram_for_event, event_from_datagram, Error};
use oxixenon::protocol::{Event, Packet};
use oxixenon::renewer;
use oxixenon::renewer::Renewer as RenewerCapability;

#[test]
fn event_datagram_bytes() {
    assert_eq!(datagram_for_event(Event::IPRenewed), vec![3, 0]);
}

#[test]
fn broadcast_datagram_is_received_as_sent() {
    let wire = datagram_for_event(Event::IPRenewed);
    assert_eq!(event_from_datagram(&wire), Some(Event::IPRenewed));
}

// A malformed datagram followed by a valid event datagram results in exactly
// one delivery, for the valid packet, with no failure from the first one.
#[test]
fn listener_resilience() {
    let datagrams: Vec<Vec<u8>> = vec![vec![0xff, 0x00, 0x01], datagram_for_event(Event::IPRenewed)];
    let mut delivered: Vec<Event> = Vec::new();
    for datagram in &datagrams {
        if let Some(event) = event_from_datagram(datagram) {
            delivered.push(event);
        }
    }
    assert_eq!(delivered, vec![Event::IPRenewed]);
}

#[test]
fn listener_ignores_non_event_packets() {
    // A well-formed reply packet is not an event: skipped, not an error.
    let mut wire: Vec<u8> = Vec::new();
    Packet::Okay.write(&mut wire).unwrap();
    assert_eq!(event_from_datagram(&wire), None);
}

#[test]
fn listener_ignores_truncated_datagrams() {
    assert_eq!(event_from_datagram(&[]), None);
    assert_eq!(event_from_datagram(&[3]), None);
}

#[test]
fn listener_tolerates_trailing_bytes() {
    // The receive buffer is larger than the packet; trailing bytes are
    // ignored, as when a three-byte buffer holds a two-byte packet.
    assert_eq!(event_from_datagram(&[3, 0, 99]), Some(Event::IPRenewed));
}

#[test]
fn notifier_errors_carry_their_text() {
    let e = Error::GenericWithCause("bind failed", "address in use".to_string());
    assert_eq!(
        e,
        Error::GenericWithCause("bind failed", "address in use".to_string())
    );
    assert!(Error::Generic("no listener") != e);
}

#[test]
fn dummy_renewer_always_succeeds() {
    let mut renewer = renewer::get_renewer("dummy").expect("the dummy renewer is built in");
    assert!(renewer.init().is_ok());
    assert!(renewer.renew_ip().is_ok());
}

#[test]
fn unknown_renewer_names_are_refused() {
    let r = renewer::get_renewer("dlink");
    assert_eq!(
        r,
        Err(renewer::Error::Generic(
            "invalid renewer name - if applicable, ensure this renewer is enabled"
        ))
    );
    assert!(renewer::get_renewer("").is_err());
}
