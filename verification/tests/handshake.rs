use socks5_server::{
    Action, Address, Connection, Error, Event, Handshake, HandshakeMethod, HandshakeRequest,
    HandshakeResponse, IncomingConnection,
};

struct Run {
    end: Handshake,
    sent: Vec<Vec<u8>>,
    read: usize,
    asked: Vec<usize>,
}

/// Plays the caller: reads from `input` what the machine asks for, in pieces
/// of at most `piece` bytes, and answers the authentication with `auth`.
fn drive(method: HandshakeMethod, input: &[u8], piece: usize, auth: bool) -> Run {
    let mut conn = IncomingConnection::new(method);
    let mut sent: Vec<Vec<u8>> = Vec::new();
    let mut asked: Vec<usize> = Vec::new();
    let mut pos: usize = 0;
    loop {
        let event = match conn.action() {
            Action::Receive(n) => {
                asked.push(n);
                let end = usize::min(pos + usize::min(n, piece), input.len());
                let chunk = input[pos..end].to_vec();
                pos = end;
                Event::Received(chunk)
            }
            Action::Authenticate(bytes) => {
                sent.push(bytes);
                if auth {
                    Event::Authenticated
                } else {
                    Event::Denied
                }
            }
        };
        match conn.handshake(event) {
            Handshake::Pending(next) => conn = next,
            end => return Run { end, sent, read: pos, asked },
        }
    }
}

fn rejection(end: Handshake) -> (Option<Vec<u8>>, Error) {
    match end {
        Handshake::Rejected { notice, error } => (notice, error),
        _ => panic!("the handshake was not rejected"),
    }
}

const GENERAL_FAILURE: [u8; 10] = [0x05, 0x01, 0x00, 0x01, 0, 0, 0, 0, 0, 0];

#[test]
fn no_auth_connect_is_dispatched_to_connect() {
    let input = [0x05, 0x01, 0x00, 0x05, 0x01, 0x00, 0x01, 127, 0, 0, 1, 0x00, 0x50];
    let run = drive(HandshakeMethod::NoAuth, &input, usize::MAX, true);
    assert_eq!(run.sent, vec![vec![0x05u8, 0x00]]);
    assert_eq!(run.read, input.len());
    assert_eq!(run.asked, vec![1, 1, 1, 1, 2, 1, 6]);
    match run.end {
        Handshake::Established(Connection::Connect(_, addr)) => {
            assert_eq!(addr, Address::Ipv4([127, 0, 0, 1], 80));
        }
        _ => panic!("the request was not dispatched to the connect handle"),
    }
}

#[test]
fn method_not_offered_is_refused_and_nothing_more_is_read() {
    let input = [0x05, 0x01, 0x00, 0x05, 0x01, 0x00, 0x01, 127, 0, 0, 1, 0x00, 0x50];
    let run = drive(HandshakeMethod::Password, &input, usize::MAX, true);
    assert!(run.sent.is_empty());
    assert_eq!(run.read, 3);
    assert_eq!(
        rejection(run.end),
        (Some(vec![0x05, 0xff]), Error::AuthenticationNegotiationFailed)
    );
}

#[test]
fn handshake_is_the_same_one_byte_at_a_time() {
    let mut input: Vec<u8> = vec![0x05, 0x03, 0x01, 0x02, 0x00, 0x05, 0x03, 0x00, 0x03, 11];
    input.extend_from_slice(b"example.com");
    input.extend_from_slice(&[0x1f, 0x90, 0xaa, 0xbb]);
    for piece in [1usize, 2, 3, 5, usize::MAX] {
        let run = drive(HandshakeMethod::NoAuth, &input, piece, true);
        assert_eq!(run.sent, vec![vec![0x05u8, 0x00]]);
        assert_eq!(run.read, input.len() - 2);
        match run.end {
            Handshake::Established(Connection::Associate(_, addr)) => {
                assert_eq!(addr, Address::Domain(b"example.com".to_vec(), 8080));
            }
            _ => panic!("the request was not dispatched to the associate handle"),
        }
    }
}

#[test]
fn bind_request_is_dispatched_to_bind() {
    let mut input: Vec<u8> = vec![0x05, 0x02, 0x00, 0x02, 0x05, 0x02, 0x00, 0x04];
    input.extend_from_slice(&[0u8; 15]);
    input.extend_from_slice(&[1, 0x04, 0x38]);
    let run = drive(HandshakeMethod::Password, &input, usize::MAX, true);
    assert_eq!(run.sent, vec![vec![0x05u8, 0x02]]);
    match run.end {
        Handshake::Established(Connection::Bind(_, addr)) => {
            let mut ip = [0u8; 16];
            ip[15] = 1;
            assert_eq!(addr, Address::Ipv6(ip, 1080));
        }
        _ => panic!("the request was not dispatched to the bind handle"),
    }
}

#[test]
fn denied_authentication_ends_the_handshake_in_silence() {
    let input = [0x05, 0x01, 0x02, 0x05, 0x01, 0x00, 0x01, 127, 0, 0, 1, 0x00, 0x50];
    let run = drive(HandshakeMethod::Password, &input, usize::MAX, false);
    assert_eq!(run.sent, vec![vec![0x05u8, 0x02]]);
    assert_eq!(run.read, 3);
    assert_eq!(rejection(run.end), (None, Error::AuthenticationExecutionFailed));
}

#[test]
fn wrong_version_in_handshake_is_refused_at_the_first_byte() {
    let run = drive(HandshakeMethod::NoAuth, &[0x04, 0x01, 0x00], usize::MAX, true);
    assert_eq!(run.read, 1);
    assert_eq!(rejection(run.end), (None, Error::UnsupportedVersion(4)));
}

#[test]
fn stream_that_ends_in_the_handshake_is_malformed() {
    for input in [&[][..], &[0x05][..], &[0x05, 0x02][..], &[0x05, 0x02, 0x00][..]] {
        let run = drive(HandshakeMethod::NoAuth, input, usize::MAX, true);
        assert!(run.sent.is_empty());
        assert_eq!(rejection(run.end), (None, Error::MalformedMessage));
    }
}

#[test]
fn failed_request_is_answered_with_general_failure() {
    let cases: Vec<(Vec<u8>, Error)> = vec![
        (vec![], Error::MalformedMessage),
        (vec![0x04], Error::UnsupportedVersion(4)),
        (vec![0x05, 0x01], Error::MalformedMessage),
        (vec![0x05, 0x08, 0x00], Error::UnsupportedCommand(8)),
        (vec![0x05, 0x01, 0x00, 0x02], Error::UnsupportedAddressType(2)),
        (vec![0x05, 0x01, 0x00, 0x01, 127, 0, 0], Error::MalformedMessage),
        (vec![0x05, 0x01, 0x00, 0x03, 4, b'a'], Error::MalformedMessage),
    ];
    for (request, error) in cases {
        let mut input: Vec<u8> = vec![0x05, 0x01, 0x00];
        input.extend_from_slice(&request);
        let run = drive(HandshakeMethod::NoAuth, &input, usize::MAX, true);
        assert_eq!(run.sent, vec![vec![0x05u8, 0x00]]);
        assert_eq!(rejection(run.end), (Some(GENERAL_FAILURE.to_vec()), error));
    }
}

#[test]
fn stream_failure_ends_the_handshake() {
    let conn = IncomingConnection::new(HandshakeMethod::NoAuth);
    assert_eq!(rejection(conn.handshake(Event::Failed)), (None, Error::Io));

    let conn = IncomingConnection::new(HandshakeMethod::NoAuth);
    let conn = match conn.handshake(Event::Received(vec![0x05])) {
        Handshake::Pending(conn) => conn,
        _ => panic!("one byte cannot end the handshake"),
    };
    let conn = match conn.handshake(Event::Received(vec![0x01])) {
        Handshake::Pending(conn) => conn,
        _ => panic!("two bytes cannot end this handshake"),
    };
    let conn = match conn.handshake(Event::Received(vec![0x00])) {
        Handshake::Pending(conn) => conn,
        _ => panic!("the method was offered"),
    };
    assert!(matches!(conn.action(), Action::Authenticate(_)));
    assert_eq!(rejection(conn.handshake(Event::Failed)), (None, Error::Io));

    let conn = IncomingConnection::new(HandshakeMethod::NoAuth);
    let conn = match conn.handshake(Event::Received(vec![0x05])) {
        Handshake::Pending(conn) => conn,
        _ => panic!("one byte cannot end the handshake"),
    };
    let conn = match conn.handshake(Event::Received(vec![0x00])) {
        Handshake::Rejected { notice, error } => {
            assert_eq!(notice, Some(vec![0x05, 0xff]));
            assert_eq!(error, Error::AuthenticationNegotiationFailed);
            IncomingConnection::new(HandshakeMethod::NoAuth)
        }
        _ => panic!("a request without methods offers nothing"),
    };
    drop(conn);
}

#[test]
fn stream_failure_after_authentication_is_answered_with_general_failure() {
    let mut conn = IncomingConnection::new(HandshakeMethod::NoAuth);
    for event in [
        Event::Received(vec![0x05]),
        Event::Received(vec![0x01]),
        Event::Received(vec![0x00]),
        Event::Authenticated,
        Event::Received(vec![0x05]),
    ] {
        conn = match conn.handshake(event) {
            Handshake::Pending(conn) => conn,
            _ => panic!("the handshake ended early"),
        };
    }
    assert!(matches!(conn.action(), Action::Receive(2)));
    assert_eq!(
        rejection(conn.handshake(Event::Failed)),
        (Some(GENERAL_FAILURE.to_vec()), Error::Io)
    );
}

#[test]
fn more_bytes_than_asked_for_are_refused() {
    let conn = IncomingConnection::new(HandshakeMethod::NoAuth);
    assert!(matches!(conn.action(), Action::Receive(1)));
    assert_eq!(
        rejection(conn.handshake(Event::Received(vec![0x05, 0x01, 0x00]))),
        (None, Error::MalformedMessage)
    );
}

#[test]
fn events_that_answer_nothing_change_nothing() {
    let conn = IncomingConnection::new(HandshakeMethod::NoAuth);
    let conn = match conn.handshake(Event::Authenticated) {
        Handshake::Pending(conn) => conn,
        _ => panic!("the machine did not stay"),
    };
    let conn = match conn.handshake(Event::Denied) {
        Handshake::Pending(conn) => conn,
        _ => panic!("the machine did not stay"),
    };
    assert!(matches!(conn.action(), Action::Receive(1)));
    let mut conn = conn;
    for byte in [0x05u8, 0x01, 0x00] {
        conn = match conn.handshake(Event::Received(vec![byte])) {
            Handshake::Pending(conn) => conn,
            _ => panic!("the handshake ended early"),
        };
    }
    let conn = match conn.handshake(Event::Received(vec![0x05])) {
        Handshake::Pending(conn) => conn,
        _ => panic!("the machine did not stay"),
    };
    match conn.action() {
        Action::Authenticate(bytes) => assert_eq!(bytes, vec![0x05, 0x00]),
        _ => panic!("the machine left the authentication"),
    }
}

#[test]
fn method_is_matched_by_its_code() {
    let input = [0x05, 0x02, 0x01, 0x80, 0x05, 0x01, 0x00, 0x01, 1, 2, 3, 4, 0, 1];
    let run = drive(HandshakeMethod::Unrecognized(0x80), &input, usize::MAX, true);
    assert_eq!(run.sent, vec![vec![0x05u8, 0x80]]);
    assert!(matches!(run.end, Handshake::Established(Connection::Connect(_, _))));

    let run = drive(HandshakeMethod::Unrecognized(0x01), &input, usize::MAX, true);
    assert_eq!(run.sent, vec![vec![0x05u8, 0x01]]);
    assert!(matches!(run.end, Handshake::Established(Connection::Connect(_, _))));
}

#[test]
fn auth_picks_the_servers_method_or_none() {
    let conn = IncomingConnection::new(HandshakeMethod::Password);
    let offer = HandshakeRequest::new(vec![HandshakeMethod::NoAuth, HandshakeMethod::Password]);
    assert_eq!(conn.auth(&offer), Ok(HandshakeResponse::new(HandshakeMethod::Password)));
    let offer = HandshakeRequest::new(vec![HandshakeMethod::NoAuth, HandshakeMethod::Gssapi]);
    assert_eq!(
        conn.auth(&offer),
        Err((
            HandshakeResponse::new(HandshakeMethod::Unacceptable),
            Error::AuthenticationNegotiationFailed
        ))
    );
    let offer = HandshakeRequest::new(Vec::new());
    assert!(conn.auth(&offer).is_err());
}

#[test]
fn serve_dispatches_connect_to_localhost() {
    let stream = [0x05, 0x01, 0x00, 0x05, 0x01, 0x00, 0x01, 127, 0, 0, 1, 0x00, 0x50];
    let end = IncomingConnection::new(HandshakeMethod::NoAuth).serve(&stream, true);
    match end {
        Handshake::Established(Connection::Connect(_, addr)) => {
            assert_eq!(addr, Address::Ipv4([127, 0, 0, 1], 80));
        }
        _ => panic!("the request was not dispatched to the connect handle"),
    }
}

#[test]
fn serve_refuses_a_client_without_the_method() {
    let stream = [0x05, 0x02, 0x00, 0x01, 0x05, 0x01, 0x00, 0x01, 127, 0, 0, 1, 0x00, 0x50];
    let end = IncomingConnection::new(HandshakeMethod::Password).serve(&stream, true);
    assert_eq!(rejection(end), (Some(vec![0x05, 0xff]), Error::AuthenticationNegotiationFailed));
}

#[test]
fn serve_agrees_with_stepping_by_hand() {
    let streams: Vec<Vec<u8>> = vec![
        vec![],
        vec![0x05],
        vec![0x04, 0x01, 0x00],
        vec![0x05, 0x00],
        vec![0x05, 0x01, 0x00],
        vec![0x05, 0x01, 0x00, 0x05, 0x09, 0x00],
        vec![0x05, 0x01, 0x00, 0x05, 0x03, 0x00, 0x06],
        vec![0x05, 0x01, 0x00, 0x05, 0x03, 0x00, 0x03, 2, b'h', b'i', 0x00, 0x35],
        vec![0x05, 0x02, 0x02, 0x00, 0x05, 0x02, 0x00, 0x01, 1, 2, 3, 4, 0x01, 0x00, 0x77],
    ];
    for stream in streams {
        for admitted in [true, false] {
            let by_hand = drive(HandshakeMethod::NoAuth, &stream, usize::MAX, admitted).end;
            let served = IncomingConnection::new(HandshakeMethod::NoAuth).serve(&stream, admitted);
            match (by_hand, served) {
                (
                    Handshake::Rejected { notice: n1, error: e1 },
                    Handshake::Rejected { notice: n2, error: e2 },
                ) => {
                    assert_eq!(n1, n2);
                    assert_eq!(e1, e2);
                }
                (
                    Handshake::Established(Connection::Associate(_, a1)),
                    Handshake::Established(Connection::Associate(_, a2)),
                ) => assert_eq!(a1, a2),
                (
                    Handshake::Established(Connection::Bind(_, a1)),
                    Handshake::Established(Connection::Bind(_, a2)),
                ) => assert_eq!(a1, a2),
                (
                    Handshake::Established(Connection::Connect(_, a1)),
                    Handshake::Established(Connection::Connect(_, a2)),
                ) => assert_eq!(a1, a2),
                _ => panic!("the two ways of running the handshake disagree"),
            }
        }
    }
}

#[test]
fn serve_ends_each_kind_of_failure_as_expected() {
    let end = IncomingConnection::new(HandshakeMethod::NoAuth).serve(&[0x05, 0x01, 0x00], false);
    assert_eq!(rejection(end), (None, Error::AuthenticationExecutionFailed));
    let end = IncomingConnection::new(HandshakeMethod::NoAuth).serve(&[0x05, 0x01, 0x00], true);
    assert_eq!(rejection(end), (Some(GENERAL_FAILURE.to_vec()), Error::MalformedMessage));
    let end = IncomingConnection::new(HandshakeMethod::NoAuth).serve(&[0x07], true);
    assert_eq!(rejection(end), (None, Error::UnsupportedVersion(7)));
    let end = IncomingConnection::new(HandshakeMethod::NoAuth)
        .serve(&[0x05, 0x01, 0x00, 0x05, 0x01, 0x00, 0x09], true);
    assert_eq!(
        rejection(end),
        (Some(GENERAL_FAILURE.to_vec()), Error::UnsupportedAddressType(9))
    );
}
