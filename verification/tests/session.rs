use oxixenon::protocol::{ByteReader, Event, Packet, RenewAvailability};
use oxixenon::session::{
    decode_failure_response, interpret_response, packet_for_action, renew_response, ClientAction,
    ClientConfig, RenewOutcome, ResponseInterpretation, Server, ServerStep,
};

fn encode_packet(p: &Packet) -> Vec<u8> {
    let mut out: Vec<u8> = Vec::new();
    p.write(&mut out).expect("encoding must succeed");
    out
}

fn decode_packet(bytes: &[u8]) -> Packet {
    let mut reader = ByteReader::new(bytes);
    Packet::read(&mut reader).expect("decoding must succeed")
}

#[test]
fn server_starts_available() {
    let server = Server::new();
    assert_eq!(*server.availability(), RenewAvailability::Available);
}

#[test]
fn available_server_renews() {
    let mut server = Server::new();
    let step = server.on_request(Packet::FreshIPRequest);
    assert_eq!(step, ServerStep::Renew);
    assert_eq!(*server.availability(), RenewAvailability::Available);
}

#[test]
fn availability_gate_blocks_renewal() {
    let mut server = Server::new();
    let step = server.on_request(Packet::SetRenewingAvailable(RenewAvailability::Unavailable(
        "maintenance".to_string(),
    )));
    assert_eq!(step, ServerStep::Reply(Packet::Okay));

    // A renewal request must now short-circuit to an error carrying the
    // reason, without reaching the renew action (no `Renew` step).
    let step = server.on_request(Packet::FreshIPRequest);
    assert_eq!(
        step,
        ServerStep::Reply(Packet::Error("Renewal unavailable: maintenance".to_string()))
    );
}

#[test]
fn set_available_reopens_gate() {
    let mut server = Server::new();
    server.on_request(Packet::SetRenewingAvailable(RenewAvailability::Unavailable(
        "down".to_string(),
    )));
    let step = server.on_request(Packet::SetRenewingAvailable(RenewAvailability::Available));
    assert_eq!(step, ServerStep::Reply(Packet::Okay));
    let step = server.on_request(Packet::FreshIPRequest);
    assert_eq!(step, ServerStep::Renew);
}

#[test]
fn unsupported_packets_get_error_replies() {
    let mut server = Server::new();
    for packet in [
        Packet::Okay,
        Packet::Error("hello".to_string()),
        Packet::Event(Event::IPRenewed),
    ] {
        let step = server.on_request(packet);
        assert_eq!(
            step,
            ServerStep::Reply(Packet::Error("Unsupported packet".to_string()))
        );
    }
}

#[test]
fn renew_responses_disclose_no_cause() {
    assert_eq!(renew_response(RenewOutcome::Renewed), Packet::Okay);
    assert_eq!(
        renew_response(RenewOutcome::RenewerFailed),
        Packet::Error("failed to renew the IP address".to_string())
    );
    assert_eq!(
        renew_response(RenewOutcome::NotifierFailed),
        Packet::Error("failed to send notifications".to_string())
    );
}

#[test]
fn decode_failure_gets_fixed_message() {
    assert_eq!(
        decode_failure_response(),
        Packet::Error("invalid packet".to_string())
    );
}

#[test]
fn packets_for_actions() {
    assert_eq!(
        packet_for_action(ClientAction::RenewIP),
        Some(Packet::FreshIPRequest)
    );
    assert_eq!(
        packet_for_action(ClientAction::SetRenewingAvailability(
            RenewAvailability::Available
        )),
        Some(Packet::SetRenewingAvailable(RenewAvailability::Available))
    );
    assert_eq!(
        packet_for_action(ClientAction::SubscribeToNotifications),
        None
    );
}

#[test]
fn response_interpretation() {
    assert_eq!(
        interpret_response(Packet::Okay),
        ResponseInterpretation::Completed
    );
    assert_eq!(
        interpret_response(Packet::Error("nope".to_string())),
        ResponseInterpretation::Failed("nope".to_string())
    );
    assert_eq!(
        interpret_response(Packet::Event(Event::IPRenewed)),
        ResponseInterpretation::Unexpected(Packet::Event(Event::IPRenewed))
    );
    assert_eq!(
        interpret_response(Packet::FreshIPRequest),
        ResponseInterpretation::Unexpected(Packet::FreshIPRequest)
    );
}

#[test]
fn client_config_carries_action() {
    let config = ClientConfig {
        connect_to: "127.0.0.1:1234".to_string(),
        action: ClientAction::RenewIP,
    };
    assert_eq!(packet_for_action(config.action), Some(Packet::FreshIPRequest));
}

// The whole exchange over the wire: a first client marks renewal
// unavailable, a second client's renewal request is then refused with the
// reason, both through encoded bytes.
#[test]
fn end_to_end_availability_scenario() {
    let mut server = Server::new();

    // First client: set availability to unavailable.
    let request = packet_for_action(ClientAction::SetRenewingAvailability(
        RenewAvailability::Unavailable("maintenance".to_string()),
    ))
    .expect("this action sends a packet");
    let wire = encode_packet(&request);

    let received = decode_packet(&wire);
    let step = server.on_request(received);
    let reply = match step {
        ServerStep::Reply(p) => p,
        ServerStep::Renew => panic!("gate update must not trigger a renewal"),
    };
    let reply_wire = encode_packet(&reply);

    let response = decode_packet(&reply_wire);
    assert_eq!(interpret_response(response), ResponseInterpretation::Completed);

    // Second client: request a renewal; it must be refused with the reason.
    let request = packet_for_action(ClientAction::RenewIP).expect("this action sends a packet");
    let wire = encode_packet(&request);

    let received = decode_packet(&wire);
    let step = server.on_request(received);
    let reply = match step {
        ServerStep::Reply(p) => p,
        ServerStep::Renew => panic!("renewal must be gated while unavailable"),
    };
    let reply_wire = encode_packet(&reply);

    let response = decode_packet(&reply_wire);
    assert_eq!(
        interpret_response(response),
        ResponseInterpretation::Failed("Renewal unavailable: maintenance".to_string())
    );
}

// While renewal is available, a renewal request reaches the renew step and
// a successful outcome is answered with `Okay` over the wire.
#[test]
fn end_to_end_successful_renewal() {
    let mut server = Server::new();

    let wire = encode_packet(&packet_for_action(ClientAction::RenewIP).unwrap());
    let step = server.on_request(decode_packet(&wire));
    assert_eq!(step, ServerStep::Renew);

    let reply_wire = encode_packet(&renew_response(RenewOutcome::Renewed));
    assert_eq!(
        interpret_response(decode_packet(&reply_wire)),
        ResponseInterpretation::Completed
    );
}
