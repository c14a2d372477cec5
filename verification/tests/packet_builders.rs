use bytes::Bytes;
use russh_agent::client::Constraint;
use russh_agent::client::Message;
use russh_agent::error::Error;
use russh_agent::packet::identity::AddIdentity;
use russh_agent::packet::identity::AddIdentityConstrained;
use russh_agent::packet::identity::RemoveAll;
use russh_agent::packet::identity::RemoveIdentity;
use russh_agent::packet::identity::RequestIdentities;
use russh_agent::packet::lock::Lock;
use russh_agent::packet::sign::SignRequest;
use russh_agent::packet::unlock::Unlock;
use russh_agent::packet::IntoPacket;
use russh_agent::packet::Packet;
use russh_agent::packet::PacketKind;

fn packet(kind: PacketKind, payload: &[u8]) -> Packet {
    let mut expected = Packet::default();
    let _ = expected.set_kind(kind);
    let _ = expected.set_payload(Bytes::copy_from_slice(payload));
    expected
}

/// A field one byte longer than a 4-byte length can say, where the machine
/// has the address space for it.
fn oversized() -> Option<Bytes> {
    let too_long = (u32::MAX as usize).checked_add(1)?;
    let mut probe: Vec<u8> = Vec::new();
    probe.try_reserve_exact(too_long).ok()?;
    drop(probe);
    Some(Bytes::from(vec![0u8; too_long]))
}

#[test]
fn unlock() -> Result<(), Error> {
    let lock = Unlock::new(Bytes::from_static(b"test"));
    let pkt = lock.into_packet()?;
    let mut expected = Packet::default();
    let _ = expected.set_kind(PacketKind::Unlock);
    let _ = expected.set_payload(Bytes::from_static(&[
        23, 0, 0, 0, 4, b't', b'e', b's', b't',
    ]));
    assert_eq!(pkt, expected);
    Ok(())
}

#[test]
fn lock() -> Result<(), Error> {
    let lock = Lock::new(Bytes::from_static(b"test"));
    let pkt = lock.into_packet()?;
    assert_eq!(
        pkt,
        packet(PacketKind::Lock, &[22, 0, 0, 0, 4, b't', b'e', b's', b't'])
    );
    Ok(())
}

#[test]
fn lock_with_empty_passphrase() -> Result<(), Error> {
    let pkt = Lock::new(Bytes::new()).into_packet()?;
    assert_eq!(pkt, packet(PacketKind::Lock, &[22, 0, 0, 0, 0]));
    Ok(())
}

#[test]
fn add_identity_layout() -> Result<(), Error> {
    let blob: Vec<u8> = vec![0xde, 0xad, 0xbe, 0xef, 0x01];
    let add = AddIdentity::new(
        Bytes::from_static(b"ssh-ed25519"),
        Bytes::from(blob.clone()),
        Bytes::from_static(b"c"),
    );
    let pkt = add.into_packet()?;

    let mut expected: Vec<u8> = vec![17];
    expected.extend_from_slice(&[0, 0, 0, 11]);
    expected.extend_from_slice(b"ssh-ed25519");
    expected.extend_from_slice(&[0, 0, 0, 5]);
    expected.extend_from_slice(&blob);
    expected.extend_from_slice(&[0, 0, 0, 1]);
    expected.extend_from_slice(b"c");

    assert_eq!(*pkt.kind(), PacketKind::AddIdentity);
    assert_eq!(&pkt.payload()[..], &expected[..]);
    assert_eq!(pkt.payload().len(), 1 + 4 + 11 + 4 + 5 + 4 + 1);
    Ok(())
}

#[test]
fn add_identity_constrained_appends_raw_constraints() -> Result<(), Error> {
    let lifetime = Constraint::lifetime(1000);
    let add = AddIdentityConstrained::new(
        Bytes::from_static(b"ssh-rsa"),
        Bytes::from_static(&[9, 8, 7]),
        Bytes::from_static(b"key"),
        lifetime.payload().clone(),
    );
    let pkt = add.into_packet()?;
    assert_eq!(
        pkt,
        packet(
            PacketKind::AddIdentityConstrained,
            &[
                25, 0, 0, 0, 7, b's', b's', b'h', b'-', b'r', b's', b'a', 0, 0, 0, 3, 9, 8, 7, 0,
                0, 0, 3, b'k', b'e', b'y', 1, 0, 0, 3, 0xE8,
            ]
        )
    );
    Ok(())
}

#[test]
fn add_identity_constrained_with_two_constraints() -> Result<(), Error> {
    let mut both: Vec<u8> = Vec::new();
    both.extend_from_slice(Constraint::lifetime(1).payload());
    both.extend_from_slice(Constraint::confirm().payload());
    let add = AddIdentityConstrained::new(
        Bytes::from_static(b"t"),
        Bytes::from_static(b"k"),
        Bytes::from_static(b""),
        Bytes::from(both),
    );
    let pkt = add.into_packet()?;
    assert_eq!(
        &pkt.payload()[..],
        &[25, 0, 0, 0, 1, b't', 0, 0, 0, 1, b'k', 0, 0, 0, 0, 1, 0, 0, 0, 1, 2][..]
    );
    Ok(())
}

#[test]
fn remove_identity_layout() -> Result<(), Error> {
    let pkt = RemoveIdentity::new(Bytes::from_static(&[1, 2, 3])).into_packet()?;
    assert_eq!(
        pkt,
        packet(PacketKind::RemoveIdentity, &[18, 0, 0, 0, 3, 1, 2, 3])
    );
    Ok(())
}

#[test]
fn remove_all_is_tag_only() -> Result<(), Error> {
    let pkt = RemoveAll::default().into_packet()?;
    assert_eq!(pkt, packet(PacketKind::RemoveAll, &[19]));
    Ok(())
}

#[test]
fn request_identities_is_tag_only() -> Result<(), Error> {
    let pkt = RequestIdentities::default().into_packet()?;
    assert_eq!(pkt, packet(PacketKind::RequestIdentities, &[11]));
    Ok(())
}

#[test]
fn sign_request_layout() -> Result<(), Error> {
    let sign = SignRequest::new(
        Bytes::from_static(&[0xaa, 0xbb]),
        Bytes::from_static(b"testing"),
        0x0102_0304,
    );
    let pkt = sign.into_packet()?;
    assert_eq!(
        pkt,
        packet(
            PacketKind::SignRequest,
            &[
                13, 0, 0, 0, 2, 0xaa, 0xbb, 0, 0, 0, 7, b't', b'e', b's', b't', b'i', b'n', b'g',
                1, 2, 3, 4,
            ]
        )
    );
    Ok(())
}

#[test]
fn sign_request_with_zero_flags() -> Result<(), Error> {
    let pkt = SignRequest::new(Bytes::new(), Bytes::new(), 0).into_packet()?;
    assert_eq!(
        &pkt.payload()[..],
        &[13, 0, 0, 0, 0, 0, 0, 0, 0, 0, 0, 0, 0][..]
    );
    Ok(())
}

#[test]
fn payload_starts_with_the_code_of_the_kind() -> Result<(), Error> {
    let packets = vec![
        AddIdentity::new(Bytes::new(), Bytes::new(), Bytes::new()).into_packet()?,
        AddIdentityConstrained::new(Bytes::new(), Bytes::new(), Bytes::new(), Bytes::new())
            .into_packet()?,
        RemoveIdentity::new(Bytes::new()).into_packet()?,
        RemoveAll::default().into_packet()?,
        RequestIdentities::default().into_packet()?,
        SignRequest::new(Bytes::new(), Bytes::new(), 7).into_packet()?,
        Lock::new(Bytes::new()).into_packet()?,
        Unlock::new(Bytes::new()).into_packet()?,
    ];
    for pkt in &packets {
        assert_eq!(pkt.payload()[0], pkt.kind().code());
        assert_eq!(PacketKind::from(pkt.payload()[0]), *pkt.kind());
    }
    Ok(())
}

#[test]
fn building_twice_gives_the_same_packet() -> Result<(), Error> {
    let sign = SignRequest::new(Bytes::from_static(b"k"), Bytes::from_static(b"d"), 2);
    let lock = Lock::new(Bytes::from_static(b"p"));
    let first = sign.into_packet()?;
    let other = lock.into_packet()?;
    let second = sign.into_packet()?;
    assert_eq!(first, second);
    assert_ne!(first, other);
    assert_eq!(other, lock.into_packet()?);
    Ok(())
}

#[test]
fn each_message_maps_to_its_packet() -> Result<(), Error> {
    let t = Bytes::from_static(b"ssh-ed25519");
    let k = Bytes::from_static(&[1, 2]);
    let c = Bytes::from_static(b"c");
    let l = Constraint::confirm().payload().clone();

    assert_eq!(
        Message::Add(t.clone(), k.clone(), c.clone()).into_packet()?,
        Some(AddIdentity::new(t.clone(), k.clone(), c.clone()).into_packet()?)
    );
    assert_eq!(
        Message::AddConstrained(t.clone(), k.clone(), c.clone(), l.clone()).into_packet()?,
        Some(AddIdentityConstrained::new(t.clone(), k.clone(), c.clone(), l.clone()).into_packet()?)
    );
    assert_eq!(
        Message::Remove(k.clone()).into_packet()?,
        Some(RemoveIdentity::new(k.clone()).into_packet()?)
    );
    assert_eq!(
        Message::RemoveAll.into_packet()?,
        Some(packet(PacketKind::RemoveAll, &[19]))
    );
    assert_eq!(
        Message::List.into_packet()?,
        Some(packet(PacketKind::RequestIdentities, &[11]))
    );
    assert_eq!(
        Message::Sign(k.clone(), c.clone(), 4).into_packet()?,
        Some(SignRequest::new(k.clone(), c.clone(), 4).into_packet()?)
    );
    assert_eq!(
        Message::Lock(c.clone()).into_packet()?,
        Some(packet(PacketKind::Lock, &[22, 0, 0, 0, 1, b'c']))
    );
    assert_eq!(
        Message::Unlock(c.clone()).into_packet()?,
        Some(packet(PacketKind::Unlock, &[23, 0, 0, 0, 1, b'c']))
    );
    assert_eq!(Message::Shutdown.into_packet()?, None);
    Ok(())
}

#[test]
fn field_longer_than_four_bytes_can_say_is_an_encoding_error() {
    let field = match oversized() {
        Some(field) => field,
        None => return,
    };
    assert_eq!(
        Unlock::new(field.clone()).into_packet(),
        Err(Error::Encoding)
    );
    assert_eq!(
        AddIdentity::new(Bytes::from_static(b"t"), Bytes::new(), field.clone()).into_packet(),
        Err(Error::Encoding)
    );
    assert_eq!(
        SignRequest::new(Bytes::new(), field.clone(), 0).into_packet(),
        Err(Error::Encoding)
    );
    assert_eq!(
        Message::Remove(field).into_packet(),
        Err(Error::Encoding)
    );
}

#[test]
fn constraint_lifetime() {
    let constraint = Constraint::lifetime(1000);
    assert_eq!(&constraint.payload()[..], &[1, 0, 0, 3, 0xE8][..]);
}

#[test]
fn constraint_lifetime_extremes() {
    assert_eq!(&Constraint::lifetime(0).payload()[..], &[1, 0, 0, 0, 0][..]);
    assert_eq!(
        &Constraint::lifetime(u32::MAX).payload()[..],
        &[1, 0xff, 0xff, 0xff, 0xff][..]
    );
    assert_eq!(
        &Constraint::lifetime(0x0102_0304).payload()[..],
        &[1, 1, 2, 3, 4][..]
    );
}

#[test]
fn constraint_confirm() {
    assert_eq!(&Constraint::confirm().payload()[..], &[2][..]);
}
