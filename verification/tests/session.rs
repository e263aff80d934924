use socks5_relay::error::S5Error;
use socks5_relay::session::{step, Action, Event, Stage};

fn success_reply() -> Vec<u8> {
    vec![0x05, 0x00, 0x00, 0x01, 0x00, 0x00, 0x00, 0x00, 0x00, 0x00]
}

fn every_event() -> Vec<Event> {
    vec![
        Event::Received(vec![0x05, 0x01, 0x00]),
        Event::Received(vec![]),
        Event::Connected,
        Event::ConnectFailed,
        Event::IoFailed,
        Event::TimedOut,
    ]
}

#[test]
fn full_negotiation_over_ipv4() {
    let (stage, action) = step(Stage::Greeting, Event::Received(vec![0x05, 0x01, 0x00]));
    assert_eq!(stage, Stage::Request);
    assert_eq!(action, Action::Send(vec![0x05, 0x00]));
    let request = vec![0x05, 0x01, 0x00, 0x01, 93, 184, 216, 34, 0x00, 0x50];
    let (stage, action) = step(stage, Event::Received(request));
    assert_eq!(stage, Stage::Connecting);
    assert_eq!(action, Action::Connect(String::from("93.184.216.34:80")));
    let (stage, action) = step(stage, Event::Connected);
    assert_eq!(stage, Stage::Relaying);
    assert_eq!(action, Action::Relay(success_reply()));
    assert!(stage.terminal());
}

#[test]
fn full_negotiation_over_domain() {
    let (stage, _) = step(Stage::Greeting, Event::Received(vec![0x05, 0x02, 0x00, 0x02]));
    let mut request = vec![0x05, 0x01, 0x00, 0x03, 11];
    request.extend_from_slice(b"example.com");
    request.extend_from_slice(&[0x01, 0xbb]);
    let (stage, action) = step(stage, Event::Received(request));
    assert_eq!(stage, Stage::Connecting);
    assert_eq!(action, Action::Connect(String::from("example.com:443")));
}

#[test]
fn foreign_greeting_closes_without_reply() {
    let (stage, action) = step(Stage::Greeting, Event::Received(vec![0x04, 0x01, 0x00]));
    assert_eq!(stage, Stage::Closed);
    assert_eq!(action, Action::Close(None, S5Error::ProtocolViolation));
    let (stage, action) = step(Stage::Greeting, Event::Received(vec![]));
    assert_eq!(stage, Stage::Closed);
    assert_eq!(action, Action::Close(None, S5Error::ProtocolViolation));
}

#[test]
fn refused_command_closes_with_reply() {
    let request = vec![0x05, 0x02, 0x00, 0x01, 10, 0, 0, 1, 0x00, 0x50];
    let (stage, action) = step(Stage::Request, Event::Received(request));
    assert_eq!(stage, Stage::Closed);
    assert_eq!(
        action,
        Action::Close(
            Some(vec![0x05, 0x07, 0x00, 0x01, 0x00, 0x00, 0x00, 0x00, 0x00, 0x00]),
            S5Error::UnsupportedCommand
        )
    );
}

#[test]
fn refused_address_type_closes_with_reply() {
    let request = vec![0x05, 0x01, 0x00, 0x04, 0, 0, 0, 0, 0, 0, 0, 0, 0, 0, 0, 0, 0, 0, 0, 1, 0, 80];
    let (stage, action) = step(Stage::Request, Event::Received(request));
    assert_eq!(stage, Stage::Closed);
    assert_eq!(
        action,
        Action::Close(
            Some(vec![0x05, 0x08, 0x00, 0x01, 0x00, 0x00, 0x00, 0x00, 0x00, 0x00]),
            S5Error::UnsupportedAddressType
        )
    );
}

#[test]
fn refused_command_wins_over_refused_address_type() {
    let request = vec![0x05, 0x03, 0x00, 0x04, 0, 0, 0, 0, 0, 80];
    let (stage, action) = step(Stage::Request, Event::Received(request));
    assert_eq!(stage, Stage::Closed);
    assert_eq!(
        action,
        Action::Close(
            Some(vec![0x05, 0x07, 0x00, 0x01, 0x00, 0x00, 0x00, 0x00, 0x00, 0x00]),
            S5Error::UnsupportedCommand
        )
    );
}

#[test]
fn malformed_request_closes_without_reply() {
    let (stage, action) = step(Stage::Request, Event::Received(vec![0x05, 0x01, 0x00, 0x01, 10, 0]));
    assert_eq!(stage, Stage::Closed);
    assert_eq!(action, Action::Close(None, S5Error::ProtocolViolation));
}

#[test]
fn failed_connect_closes_with_reply_and_never_relays() {
    let (stage, action) = step(Stage::Connecting, Event::ConnectFailed);
    assert_eq!(stage, Stage::Closed);
    assert_eq!(
        action,
        Action::Close(
            Some(vec![0x05, 0x04, 0x00, 0x01, 0x00, 0x00, 0x00, 0x00, 0x00, 0x00]),
            S5Error::UpstreamUnreachable
        )
    );
    for event in every_event() {
        let (next, action) = step(stage, event);
        assert_eq!(next, Stage::Closed);
        assert_eq!(action, Action::Nothing);
    }
}

#[test]
fn connect_timeout_closes_with_host_unreachable() {
    let (stage, action) = step(Stage::Connecting, Event::TimedOut);
    assert_eq!(stage, Stage::Closed);
    assert_eq!(
        action,
        Action::Close(
            Some(vec![0x05, 0x04, 0x00, 0x01, 0x00, 0x00, 0x00, 0x00, 0x00, 0x00]),
            S5Error::Timeout
        )
    );
}

#[test]
fn read_timeout_closes_without_reply() {
    assert_eq!(step(Stage::Greeting, Event::TimedOut), (Stage::Closed, Action::Close(None, S5Error::Timeout)));
    assert_eq!(step(Stage::Request, Event::TimedOut), (Stage::Closed, Action::Close(None, S5Error::Timeout)));
}

#[test]
fn io_failure_closes_without_reply() {
    assert_eq!(step(Stage::Greeting, Event::IoFailed), (Stage::Closed, Action::Close(None, S5Error::IoFailure)));
    assert_eq!(step(Stage::Request, Event::IoFailed), (Stage::Closed, Action::Close(None, S5Error::IoFailure)));
    assert_eq!(step(Stage::Connecting, Event::IoFailed), (Stage::Closed, Action::Close(None, S5Error::IoFailure)));
}

#[test]
fn event_out_of_turn_is_a_violation() {
    let closed = (Stage::Closed, Action::Close(None, S5Error::ProtocolViolation));
    assert_eq!(step(Stage::Greeting, Event::Connected), closed);
    assert_eq!(step(Stage::Greeting, Event::ConnectFailed), closed);
    assert_eq!(step(Stage::Request, Event::Connected), closed);
    assert_eq!(step(Stage::Request, Event::ConnectFailed), closed);
    assert_eq!(step(Stage::Connecting, Event::Received(vec![0x05, 0x01, 0x00])), closed);
}

#[test]
fn terminal_stages_answer_nothing() {
    for event in every_event() {
        assert_eq!(step(Stage::Relaying, event.clone()), (Stage::Relaying, Action::Nothing));
        assert_eq!(step(Stage::Closed, event), (Stage::Closed, Action::Nothing));
    }
    assert!(Stage::Relaying.terminal());
    assert!(Stage::Closed.terminal());
    assert!(!Stage::Greeting.terminal());
    assert!(!Stage::Request.terminal());
    assert!(!Stage::Connecting.terminal());
}

#[test]
fn every_event_ends_or_advances_a_stage() {
    let order = [Stage::Greeting, Stage::Request, Stage::Connecting];
    let mut i = 0;
    while i < order.len() {
        for event in every_event() {
            let (next, action) = step(order[i], event);
            assert_ne!(action, Action::Nothing);
            let advanced = match next {
                Stage::Closed => true,
                Stage::Relaying => i == 2,
                Stage::Connecting => i == 1,
                Stage::Request => i == 0,
                Stage::Greeting => false,
            };
            assert!(advanced);
        }
        i += 1;
    }
}
