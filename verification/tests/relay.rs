use bytes::Bytes;
use socks5_server::{
    Action, Address, Associate, AssociateUdpSocket, Bind, Connect, Connection, Event, Handshake,
    HandshakeMethod, IncomingConnection, NeedReply, Reply,
};

fn establish(request: &[u8]) -> Connection {
    let mut input: Vec<u8> = vec![0x05, 0x01, 0x00];
    input.extend_from_slice(request);
    let mut conn = IncomingConnection::new(HandshakeMethod::NoAuth);
    let mut pos: usize = 0;
    loop {
        let event = match conn.action() {
            Action::Receive(n) => {
                let chunk = input[pos..pos + n].to_vec();
                pos += n;
                Event::Received(chunk)
            }
            Action::Authenticate(_) => Event::Authenticated,
        };
        match conn.handshake(event) {
            Handshake::Pending(next) => conn = next,
            Handshake::Established(connection) => return connection,
            Handshake::Rejected { .. } => panic!("the handshake was rejected"),
        }
    }
}

fn associate() -> Associate<NeedReply> {
    match establish(&[0x05, 0x03, 0x00, 0x01, 0, 0, 0, 0, 0, 0]) {
        Connection::Associate(handle, _) => handle,
        _ => panic!("not an associate request"),
    }
}

fn received(datagram: &[u8]) -> (Vec<u8>, usize) {
    let mut buf = AssociateUdpSocket::buffer();
    buf[..datagram.len()].copy_from_slice(datagram);
    (buf, datagram.len())
}

#[test]
fn relay_send_frames_ping() {
    let out = AssociateUdpSocket::send(
        Bytes::from_static(b"ping"),
        0,
        Address::Ipv4([203, 0, 113, 5], 9000),
    );
    let mut wire: Vec<u8> = vec![0x00, 0x00, 0x00, 0x01, 203, 0, 113, 5, 0x23, 0x28];
    wire.extend_from_slice(b"ping");
    assert_eq!(&out.datagram[..], &wire[..]);
    assert_eq!(out.header_len, 10);
    assert_eq!(out.payload_sent(wire.len()), 4);
}

#[test]
fn relay_send_writes_the_fragment_number_as_given() {
    for frag in [0u8, 1, 128, 255] {
        let out = AssociateUdpSocket::send(
            Bytes::from_static(b"data"),
            frag,
            Address::Domain(b"host".to_vec(), 7),
        );
        assert_eq!(
            &out.datagram[..],
            &[0, 0, frag, 3, 4, b'h', b'o', b's', b't', 0, 7, b'd', b'a', b't', b'a']
        );
        assert_eq!(out.header_len, 11);
        assert_eq!(out.payload_sent(11), 0);
        assert_eq!(out.payload_sent(15), 4);
    }
}

#[test]
fn relay_send_of_empty_payload_is_the_header() {
    let out = AssociateUdpSocket::send(Bytes::new(), 3, Address::Ipv4([1, 1, 1, 1], 53));
    assert_eq!(&out.datagram[..], &[0, 0, 3, 1, 1, 1, 1, 1, 0, 53]);
    assert_eq!(out.header_len, 10);
}

#[test]
fn relay_try_send_frames_what_fits_a_datagram() {
    let out = AssociateUdpSocket::try_send(
        Bytes::from_static(b"ping"),
        0,
        Address::Ipv4([203, 0, 113, 5], 9000),
    )
    .unwrap();
    assert_eq!(&out.datagram[..10], &[0x00, 0x00, 0x00, 0x01, 203, 0, 113, 5, 0x23, 0x28]);
    assert_eq!(&out.datagram[10..], b"ping");
    assert_eq!(out.header_len, 10);

    let fits = Bytes::from(vec![7u8; 65525]);
    let out = AssociateUdpSocket::try_send(fits, 0, Address::Ipv4([1, 2, 3, 4], 5)).unwrap();
    assert_eq!(out.datagram.len(), 65535);

    let too_long = Bytes::from(vec![7u8; 65526]);
    assert!(AssociateUdpSocket::try_send(too_long, 0, Address::Ipv4([1, 2, 3, 4], 5)).is_none());

    let name = Address::Domain(vec![b'n'; 256], 5);
    assert!(AssociateUdpSocket::try_send(Bytes::from_static(b"x"), 0, name).is_none());
}

#[test]
fn relay_buffer_holds_the_largest_datagram() {
    assert_eq!(AssociateUdpSocket::MAX_DATAGRAM_LEN, 65535);
    let buf = AssociateUdpSocket::buffer();
    assert_eq!(buf.len(), 65535);
    assert!(buf.iter().all(|b| *b == 0));
}

#[test]
fn relay_recv_takes_the_header_off() {
    let mut datagram: Vec<u8> = vec![0x00, 0x00, 0x00, 0x01, 203, 0, 113, 5, 0x23, 0x28];
    datagram.extend_from_slice(b"ping");
    let (buf, len) = received(&datagram);
    let (payload, frag, addr) = AssociateUdpSocket::recv(buf, len).unwrap();
    assert_eq!(&payload[..], b"ping");
    assert_eq!(frag, 0);
    assert_eq!(addr, Address::Ipv4([203, 0, 113, 5], 9000));
}

#[test]
fn relay_recv_keeps_the_fragment_number() {
    for frag in [0u8, 1, 127, 255] {
        let datagram = [0, 0, frag, 3, 1, b'h', 0, 9, 0xfe];
        let (buf, len) = received(&datagram);
        let (payload, got, addr) = AssociateUdpSocket::recv(buf, len).unwrap();
        assert_eq!(&payload[..], &[0xfe]);
        assert_eq!(got, frag);
        assert_eq!(addr, Address::Domain(b"h".to_vec(), 9));
    }
}

#[test]
fn relay_recv_of_header_alone_gives_empty_payload() {
    let (buf, len) = received(&[0, 0, 0, 1, 10, 0, 0, 1, 0, 80]);
    let (payload, frag, addr) = AssociateUdpSocket::recv(buf, len).unwrap();
    assert!(payload.is_empty());
    assert_eq!(frag, 0);
    assert_eq!(addr, Address::Ipv4([10, 0, 0, 1], 80));
}

#[test]
fn relay_recv_reads_no_further_than_the_datagram() {
    let mut buf = AssociateUdpSocket::buffer();
    buf[..12].copy_from_slice(&[0, 0, 0, 1, 10, 0, 0, 1, 0, 80, b'o', b'k']);
    buf[12] = b'!';
    let (payload, _, _) = AssociateUdpSocket::recv(buf, 12).unwrap();
    assert_eq!(&payload[..], b"ok");

    let short: Vec<u8> = vec![0, 0, 0, 1, 10, 0, 0, 1, 0, 80, b'o', b'k'];
    let (payload, _, _) = AssociateUdpSocket::recv(short, 4000).unwrap();
    assert_eq!(&payload[..], b"ok");

    let cut: Vec<u8> = vec![0, 0, 0, 1, 10, 0, 0, 1, 0, 80, b'o', b'k'];
    assert!(AssociateUdpSocket::recv(cut, 9).is_none());
}

#[test]
fn relay_drops_bad_datagrams_and_returns_the_next_good_one() {
    let mut good: Vec<u8> = vec![0, 0, 0, 1, 192, 0, 2, 1, 0, 53];
    good.extend_from_slice(b"answer");
    let arriving: Vec<Vec<u8>> = vec![
        vec![],
        vec![0, 0, 0],
        vec![0, 0, 0, 1, 192, 0],
        vec![0, 0, 0, 3, 0, 0],
        vec![0, 0, 0, 2, 192, 0, 2, 1, 0, 53, b'x'],
        vec![0, 0, 0, 0xff, 1, 2, 3, 4, 5, 6, 7, 8, 9, 10, 11, 12, 13, 14, 15, 16, 17, 18, 19],
        good,
        vec![0, 0, 0, 1, 192, 0, 2, 1, 0, 53, b'l', b'a', b't', b'e'],
    ];
    let mut dropped: usize = 0;
    let mut delivered: Option<(Bytes, u8, Address)> = None;
    for datagram in arriving {
        let (buf, len) = received(&datagram);
        match AssociateUdpSocket::recv(buf, len) {
            Some(found) => {
                delivered = Some(found);
                break;
            }
            None => dropped += 1,
        }
    }
    assert_eq!(dropped, 6);
    let (payload, frag, addr) = delivered.unwrap();
    assert_eq!(&payload[..], b"answer");
    assert_eq!(frag, 0);
    assert_eq!(addr, Address::Ipv4([192, 0, 2, 1], 53));
}

#[test]
fn relay_recv_undoes_send() {
    let addr = Address::Ipv6([9; 16], 4242);
    let out = AssociateUdpSocket::send(Bytes::from_static(b"round"), 200, addr.clone());
    let (buf, len) = received(&out.datagram);
    assert_eq!(
        AssociateUdpSocket::recv(buf, len),
        Some((Bytes::from_static(b"round"), 200, addr))
    );
}

#[test]
fn associate_reply_then_wait_for_close() {
    let handle = associate();
    let (mut ready, bytes) = handle.reply(Reply::Succeeded, Address::Ipv4([10, 0, 0, 1], 4000));
    assert_eq!(bytes, vec![0x05, 0x00, 0x00, 0x01, 10, 0, 0, 1, 0x0f, 0xa0]);
    assert_eq!(ready.wait_close::<Reply>(Ok(1)), None);
    assert_eq!(ready.wait_close::<Reply>(Ok(4096)), None);
    assert_eq!(ready.wait_close::<Reply>(Err(Reply::TtlExpired)), Some(Err(Reply::TtlExpired)));
    assert_eq!(ready.wait_close::<Reply>(Ok(0)), Some(Ok(())));
}

#[test]
fn connect_reply_gives_the_response_bytes() {
    let handle: Connect<socks5_server::connection::connect::NeedReply> =
        match establish(&[0x05, 0x01, 0x00, 0x01, 127, 0, 0, 1, 0, 80]) {
            Connection::Connect(handle, addr) => {
                assert_eq!(addr, Address::Ipv4([127, 0, 0, 1], 80));
                handle
            }
            _ => panic!("not a connect request"),
        };
    let (_ready, bytes): (Connect<socks5_server::connection::connect::Ready>, Vec<u8>) =
        handle.reply(Reply::HostUnreachable, Address::unspecified());
    assert_eq!(bytes, vec![0x05, 0x04, 0x00, 0x01, 0, 0, 0, 0, 0, 0]);
}

#[test]
fn bind_replies_twice_in_order() {
    let handle: Bind<socks5_server::connection::bind::NeedFirstReply> =
        match establish(&[0x05, 0x02, 0x00, 0x03, 1, b'h', 0, 21]) {
            Connection::Bind(handle, addr) => {
                assert_eq!(addr, Address::Domain(b"h".to_vec(), 21));
                handle
            }
            _ => panic!("not a bind request"),
        };
    let (second, first_bytes): (Bind<socks5_server::connection::bind::NeedSecondReply>, Vec<u8>) =
        handle.reply(Reply::Succeeded, Address::Ipv4([10, 0, 0, 1], 2000));
    assert_eq!(first_bytes, vec![0x05, 0x00, 0x00, 0x01, 10, 0, 0, 1, 0x07, 0xd0]);
    let (_ready, second_bytes): (Bind<socks5_server::connection::bind::Ready>, Vec<u8>) =
        second.reply(Reply::Succeeded, Address::Ipv4([198, 51, 100, 7], 50000));
    assert_eq!(second_bytes, vec![0x05, 0x00, 0x00, 0x01, 198, 51, 100, 7, 0xc3, 0x50]);
}

#[test]
fn relay_recv_from_hands_the_sender_back() {
    let (buf, len) = received(&[0, 0, 9, 1, 10, 0, 0, 1, 0, 80, b'h', b'i']);
    let (payload, frag, addr, from) =
        AssociateUdpSocket::recv_from(buf, len, "192.0.2.7:5000").unwrap();
    assert_eq!(&payload[..], b"hi");
    assert_eq!(frag, 9);
    assert_eq!(addr, Address::Ipv4([10, 0, 0, 1], 80));
    assert_eq!(from, "192.0.2.7:5000");

    let (buf, len) = received(&[0, 0, 0, 7, 1]);
    assert!(AssociateUdpSocket::recv_from(buf, len, 1u8).is_none());
}

#[test]
fn relay_send_to_hands_the_destination_back() {
    let (out, to) = AssociateUdpSocket::send_to(
        Bytes::from_static(b"ping"),
        0,
        Address::Ipv4([203, 0, 113, 5], 9000),
        "198.51.100.1:4000",
    );
    assert_eq!(
        &out.datagram[..],
        &[0x00, 0x00, 0x00, 0x01, 203, 0, 113, 5, 0x23, 0x28, b'p', b'i', b'n', b'g']
    );
    assert_eq!(out.payload_sent(14), 4);
    assert_eq!(to, "198.51.100.1:4000");
}

#[test]
fn handles_count_their_replies() {
    let handle = associate();
    assert_eq!(handle.replies_sent(), 0);
    let (ready, _) = handle.reply(Reply::Succeeded, Address::unspecified());
    assert_eq!(ready.replies_sent(), 1);

    match establish(&[0x05, 0x01, 0x00, 0x01, 127, 0, 0, 1, 0, 80]) {
        Connection::Connect(handle, _) => {
            assert_eq!(handle.replies_sent(), 0);
            let (ready, _) = handle.reply(Reply::Succeeded, Address::unspecified());
            assert_eq!(ready.replies_sent(), 1);
        }
        _ => panic!("not a connect request"),
    }

    match establish(&[0x05, 0x02, 0x00, 0x01, 127, 0, 0, 1, 0, 80]) {
        Connection::Bind(handle, _) => {
            assert_eq!(handle.replies_sent(), 0);
            let (second, _) = handle.reply(Reply::Succeeded, Address::unspecified());
            assert_eq!(second.replies_sent(), 1);
            let (ready, _) = second.reply(Reply::Succeeded, Address::unspecified());
            assert_eq!(ready.replies_sent(), 2);
        }
        _ => panic!("not a bind request"),
    }
}
