use bytes::Bytes;
use bytes::BytesMut;
use russh_agent::error::Error;
use russh_agent::packet::unlock::Unlock;
use russh_agent::packet::IntoPacket;
use russh_agent::packet::Packet;
use russh_agent::packet::PacketKind;
use russh_agent::packet::MAX_FRAME_LEN;

const KINDS: [(PacketKind, u8, bool); 17] = [
    (PacketKind::Failure, 5, true),
    (PacketKind::Success, 6, true),
    (PacketKind::RequestIdentities, 11, false),
    (PacketKind::IdentitiesAnswer, 12, true),
    (PacketKind::SignRequest, 13, false),
    (PacketKind::SignResponse, 14, true),
    (PacketKind::AddIdentity, 17, false),
    (PacketKind::RemoveIdentity, 18, false),
    (PacketKind::RemoveAll, 19, false),
    (PacketKind::AddSmartcardKey, 20, false),
    (PacketKind::RemoveSmartcardKey, 21, false),
    (PacketKind::Lock, 22, false),
    (PacketKind::Unlock, 23, false),
    (PacketKind::AddIdentityConstrained, 25, false),
    (PacketKind::AddSmartcardKeyConstrained, 26, false),
    (PacketKind::Extension, 27, false),
    (PacketKind::ExtensionFailure, 28, true),
];

fn packet(kind: PacketKind, payload: &[u8]) -> Packet {
    let mut p = Packet::default();
    let _ = p.set_kind(kind);
    let _ = p.set_payload(Bytes::copy_from_slice(payload));
    p
}

/// A field one byte longer than a 4-byte length can say, where the machine
/// has the address space for it.
fn oversized() -> Option<Bytes> {
    let too_long = (u32::MAX as usize).checked_add(1)?;
    let mut probe: Vec<u8> = Vec::new();
    probe.try_reserve_exact(too_long).ok()?;
    drop(probe);
    Some(Bytes::from(vec![0u8; too_long]))
}

#[test]
fn kind_codes() {
    for (kind, code, _) in KINDS {
        assert_eq!(kind.code(), code);
        assert_eq!(u8::from(kind), code);
        assert_eq!(PacketKind::from(code), kind);
    }
    assert_eq!(PacketKind::Unknown.code(), 0);
}

#[test]
fn kind_of_an_unassigned_code_is_unknown() {
    let assigned: Vec<u8> = KINDS.iter().map(|k| k.1).collect();
    for code in 0..=255u8 {
        if !assigned.contains(&code) {
            assert_eq!(PacketKind::from(code), PacketKind::Unknown);
        }
    }
}

#[test]
fn kind_is_found_again_from_its_code() {
    for (kind, _, _) in KINDS {
        assert_eq!(PacketKind::from(kind.code()), kind);
    }
    assert_eq!(PacketKind::from(PacketKind::Unknown.code()), PacketKind::Unknown);
}

#[test]
fn response_kinds() {
    for (kind, _, response) in KINDS {
        assert_eq!(kind.is_response(), response);
    }
    assert!(!PacketKind::Unknown.is_response());
}

#[test]
fn default_kind_is_unknown() {
    assert_eq!(PacketKind::default(), PacketKind::Unknown);
}

#[test]
fn default_packet_is_empty() {
    let p = Packet::default();
    assert_eq!(*p.kind(), PacketKind::Unknown);
    assert!(p.payload().is_empty());
}

#[test]
fn setters_change_one_field_each() {
    let mut p = Packet::default();
    let _ = p.set_payload(Bytes::from_static(&[6]));
    assert_eq!(*p.kind(), PacketKind::Unknown);
    assert_eq!(&p.payload()[..], &[6][..]);
    let _ = p.set_kind(PacketKind::Success);
    assert_eq!(*p.kind(), PacketKind::Success);
    assert_eq!(&p.payload()[..], &[6][..]);
    let _ = p.set_kind(PacketKind::Failure).set_payload(Bytes::from_static(&[5]));
    assert_eq!(p, packet(PacketKind::Failure, &[5]));
}

#[test]
fn write_packet_prefixes_the_payload_length() {
    let p = packet(PacketKind::RequestIdentities, &[11]);
    let mut out = BytesMut::new();
    assert_eq!(p.write_packet(&mut out), Ok(()));
    assert_eq!(&out[..], &[0, 0, 0, 1, 11][..]);
}

#[test]
fn write_packet_appends_frames() {
    let mut out = BytesMut::new();
    assert_eq!(packet(PacketKind::RemoveAll, &[19]).write_packet(&mut out), Ok(()));
    assert_eq!(
        packet(PacketKind::Lock, &[22, 0, 0, 0, 1, b'p']).write_packet(&mut out),
        Ok(())
    );
    assert_eq!(
        &out[..],
        &[0, 0, 0, 1, 19, 0, 0, 0, 6, 22, 0, 0, 0, 1, b'p'][..]
    );
}

#[test]
fn write_packet_of_a_built_request() -> Result<(), Error> {
    let pkt = Unlock::new(Bytes::from_static(b"test")).into_packet()?;
    let mut out = BytesMut::new();
    pkt.write_packet(&mut out)?;
    assert_eq!(
        &out[..],
        &[0, 0, 0, 9, 23, 0, 0, 0, 4, b't', b'e', b's', b't'][..]
    );
    Ok(())
}

#[test]
fn write_packet_rejects_a_payload_over_four_bytes_of_length() {
    let payload = match oversized() {
        Some(payload) => payload,
        None => return,
    };
    let mut p = Packet::default();
    let _ = p.set_payload(payload);
    let mut out = BytesMut::new();
    assert_eq!(p.write_packet(&mut out), Err(Error::Encoding));
    assert!(out.is_empty());
}

#[test]
fn read_packet_takes_the_kind_from_the_first_byte() {
    let input = [0, 0, 0, 3, 12, 0xaa, 0xbb];
    assert_eq!(
        Packet::read_packet(&input),
        Ok((packet(PacketKind::IdentitiesAnswer, &[12, 0xaa, 0xbb]), 7))
    );
}

#[test]
fn read_packet_leaves_what_follows() {
    let input = [0, 0, 0, 1, 6, 0, 0, 0, 1, 5, 77];
    assert_eq!(
        Packet::read_packet(&input),
        Ok((packet(PacketKind::Success, &[6]), 5))
    );
    assert_eq!(
        Packet::read_packet(&input[5..]),
        Ok((packet(PacketKind::Failure, &[5]), 5))
    );
}

#[test]
fn read_packet_of_an_unassigned_kind() {
    assert_eq!(
        Packet::read_packet(&[0, 0, 0, 2, 99, 1]),
        Ok((packet(PacketKind::Unknown, &[99, 1]), 6))
    );
}

#[test]
fn read_packet_fails_on_a_short_header() {
    assert_eq!(Packet::read_packet(&[]), Err(Error::Truncated));
    assert_eq!(Packet::read_packet(&[0, 0, 0]), Err(Error::Truncated));
}

#[test]
fn read_packet_fails_on_a_short_payload() {
    assert_eq!(Packet::read_packet(&[0, 0, 0, 2, 6]), Err(Error::Truncated));
    assert_eq!(Packet::read_packet(&[0, 0, 0, 1]), Err(Error::Truncated));
}

#[test]
fn read_packet_fails_on_an_empty_frame() {
    assert_eq!(Packet::read_packet(&[0, 0, 0, 0]), Err(Error::EmptyFrame));
    assert_eq!(Packet::read_packet(&[0, 0, 0, 0, 6]), Err(Error::EmptyFrame));
}

#[test]
fn read_packet_fails_on_an_implausible_length() {
    assert_eq!(
        Packet::read_packet(&[0xff, 0xff, 0xff, 0xff, 6]),
        Err(Error::FrameTooLarge)
    );
    // one over the limit
    assert_eq!(
        Packet::read_packet(&[0, 4, 0, 1, 6]),
        Err(Error::FrameTooLarge)
    );
}

#[test]
fn read_packet_takes_a_frame_of_the_largest_length() {
    assert_eq!(MAX_FRAME_LEN, 262_144);
    let mut input: Vec<u8> = vec![0, 4, 0, 0];
    input.extend_from_slice(&vec![14u8; MAX_FRAME_LEN]);
    match Packet::read_packet(&input) {
        Ok((p, used)) => {
            assert_eq!(used, 4 + MAX_FRAME_LEN);
            assert_eq!(*p.kind(), PacketKind::SignResponse);
            assert_eq!(p.payload().len(), MAX_FRAME_LEN);
        }
        Err(e) => panic!("{:?}", e),
    }
    // the same header with one byte missing
    assert_eq!(
        Packet::read_packet(&input[..input.len() - 1]),
        Err(Error::Truncated)
    );
}

#[test]
fn frame_len_checks_the_announced_length() {
    assert_eq!(Packet::frame_len(&[0, 0, 0, 9]), Ok(9));
    assert_eq!(Packet::frame_len(&[0, 0, 1, 0]), Ok(256));
    assert_eq!(Packet::frame_len(&[0, 4, 0, 0]), Ok(MAX_FRAME_LEN));
    assert_eq!(Packet::frame_len(&[0, 4, 0, 1]), Err(Error::FrameTooLarge));
    assert_eq!(Packet::frame_len(&[1, 0, 0, 0]), Err(Error::FrameTooLarge));
    assert_eq!(Packet::frame_len(&[0, 0, 0, 0]), Err(Error::EmptyFrame));
    assert_eq!(Packet::frame_len(&[0, 0, 9]), Err(Error::Truncated));
}

#[test]
fn from_payload_takes_the_kind_from_the_first_byte() {
    assert_eq!(
        Packet::from_payload(Bytes::from_static(&[14, 1, 2])),
        Ok(packet(PacketKind::SignResponse, &[14, 1, 2]))
    );
    assert_eq!(
        Packet::from_payload(Bytes::from_static(&[200])),
        Ok(packet(PacketKind::Unknown, &[200]))
    );
    assert_eq!(Packet::from_payload(Bytes::new()), Err(Error::EmptyFrame));
}

#[test]
fn frame_round_trip() {
    for (kind, code, _) in KINDS {
        for body in [vec![], vec![0u8], vec![1, 2, 3, 4, 5], vec![0xff; 1000]] {
            let mut payload = vec![code];
            payload.extend_from_slice(&body);
            let p = packet(kind, &payload);
            let mut stream = BytesMut::new();
            assert_eq!(p.write_packet(&mut stream), Ok(()));
            stream.extend_from_slice(b"rest");
            assert_eq!(
                Packet::read_packet(&stream),
                Ok((p.clone(), 4 + payload.len()))
            );
        }
    }
}

#[test]
fn frame_round_trip_in_sequence() {
    let first = packet(PacketKind::Success, &[6]);
    let second = packet(PacketKind::IdentitiesAnswer, &[12, 0, 0, 0, 0]);
    let mut stream = BytesMut::new();
    assert_eq!(first.write_packet(&mut stream), Ok(()));
    assert_eq!(second.write_packet(&mut stream), Ok(()));
    let (a, used) = Packet::read_packet(&stream).expect("first frame");
    let (b, more) = Packet::read_packet(&stream[used..]).expect("second frame");
    assert_eq!(a, first);
    assert_eq!(b, second);
    assert_eq!(used + more, stream.len());
}
