use bittorrent::client::{
    gen_peer_id, gen_peer_id_bytes, truncate_or_pad, HandshakeAction, HandshakeEvent,
    HandshakeFailure, HandshakeSession, HandshakeState, Orchestrator,
};
use bittorrent::p2p::{
    deserialize_peer_handshake, gen_peer_handshake, handshakes_compatible,
    serialize_peer_handshake, HANDSHAKE_BYTE_SIZE,
};

fn id(seed: u8) -> [u8; 20] {
    let mut a = [0u8; 20];
    for (i, b) in a.iter_mut().enumerate() {
        *b = seed.wrapping_add(i as u8);
    }
    a
}

#[test]
fn handshake_layout_is_bit_exact() {
    let h = gen_peer_handshake(id(100), id(1));
    let bytes = serialize_peer_handshake(&h);
    assert_eq!(bytes.len(), 68);
    assert_eq!(HANDSHAKE_BYTE_SIZE, 68);
    assert_eq!(bytes[0], 0x13);
    assert_eq!(&bytes[1..20], b"BitTorrent protocol");
    assert_eq!(&bytes[20..28], &[0u8; 8]);
    assert_eq!(&bytes[28..48], &id(1));
    assert_eq!(&bytes[48..68], &id(100));
}

#[test]
fn handshake_layout_matches_bincode_encoding() {
    let h = gen_peer_handshake(id(7), id(42));
    let ours = serialize_peer_handshake(&h);
    let tuple = (h.magic, h.more_magic, h.reserved_bytes, h.metainfo_hash_bytes, h.peer_id_bytes);
    let theirs = bincode::serialize(&tuple).unwrap();
    assert_eq!(theirs, ours.to_vec());
}

#[test]
fn handshake_round_trip_keeps_fields() {
    let h = gen_peer_handshake(id(9), id(200));
    let bytes = serialize_peer_handshake(&h);
    let back = deserialize_peer_handshake(&bytes);
    assert_eq!(back.magic, h.magic);
    assert_eq!(back.more_magic, h.more_magic);
    assert_eq!(back.reserved_bytes, h.reserved_bytes);
    assert_eq!(back.metainfo_hash_bytes, h.metainfo_hash_bytes);
    assert_eq!(back.peer_id_bytes, h.peer_id_bytes);
}

#[test]
fn deserialize_reads_only_first_68_bytes() {
    let h = gen_peer_handshake(id(3), id(4));
    let mut bytes = serialize_peer_handshake(&h).to_vec();
    bytes.extend_from_slice(&[0xff, 0xee]);
    let back = deserialize_peer_handshake(&bytes);
    assert_eq!(back.peer_id_bytes, id(3));
    assert_eq!(back.metainfo_hash_bytes, id(4));
}

#[test]
fn compatibility_follows_content_identifier() {
    let a = gen_peer_handshake(id(1), id(50));
    let b = gen_peer_handshake(id(2), id(50));
    assert!(handshakes_compatible(&a, &b));
    for i in 0..20 {
        let mut other = id(50);
        other[i] ^= 0x01;
        let c = gen_peer_handshake(id(1), other);
        assert!(!handshakes_compatible(&a, &c));
    }
}

#[test]
fn peer_id_padding_of_short_input() {
    let s = truncate_or_pad("x", 20);
    assert_eq!(s, format!("{}x", "0".repeat(19)));
}

#[test]
fn peer_id_exact_width_unchanged() {
    let s = truncate_or_pad("abcdefghijklmnopqrst", 20);
    assert_eq!(s, "abcdefghijklmnopqrst");
}

#[test]
fn peer_id_long_input_truncated() {
    let s = truncate_or_pad("abcdefghijklmnopqrstuvwxyz", 20);
    assert_eq!(s, "abcdefghijklmnopqrst");
}

#[test]
fn peer_id_empty_input_all_zeros() {
    assert_eq!(truncate_or_pad("", 4), "0000");
}

#[test]
fn local_peer_id_is_padded_client_name() {
    assert_eq!(gen_peer_id(), "00000000animate-test");
    assert_eq!(&gen_peer_id_bytes(), b"00000000animate-test");
}

#[test]
fn session_authenticates_compatible_peer() {
    let mut s = HandshakeSession::new(id(1), id(77));
    assert_eq!(s.state, HandshakeState::Connecting);
    assert_eq!(s.outcome(), None);
    assert_eq!(s.on_event(HandshakeEvent::Connected), Some(HandshakeAction::SendHandshake));
    assert_eq!(s.handshake_bytes(), serialize_peer_handshake(&gen_peer_handshake(id(1), id(77))));
    assert_eq!(s.on_event(HandshakeEvent::Sent), Some(HandshakeAction::ReceiveHandshake));
    let reply = serialize_peer_handshake(&gen_peer_handshake(id(5), id(77)));
    assert_eq!(
        s.on_event(HandshakeEvent::Received(reply.to_vec())),
        Some(HandshakeAction::KeepConnection)
    );
    assert_eq!(s.state, HandshakeState::Authenticated);
    assert_eq!(s.outcome(), Some(Ok(())));
}

#[test]
fn session_reports_content_mismatch() {
    let mut s = HandshakeSession::new(id(1), id(77));
    s.on_event(HandshakeEvent::Connected);
    s.on_event(HandshakeEvent::Sent);
    let reply = serialize_peer_handshake(&gen_peer_handshake(id(5), id(78)));
    assert_eq!(
        s.on_event(HandshakeEvent::Received(reply.to_vec())),
        Some(HandshakeAction::CloseConnection)
    );
    assert_eq!(s.outcome(), Some(Err(HandshakeFailure::ContentMismatch)));
}

#[test]
fn session_reports_short_read() {
    let mut s = HandshakeSession::new(id(1), id(77));
    s.on_event(HandshakeEvent::Connected);
    s.on_event(HandshakeEvent::Sent);
    let reply = serialize_peer_handshake(&gen_peer_handshake(id(5), id(77)));
    s.on_event(HandshakeEvent::Received(reply[..67].to_vec()));
    assert_eq!(s.outcome(), Some(Err(HandshakeFailure::ShortRead)));

    let mut t = HandshakeSession::new(id(1), id(77));
    t.on_event(HandshakeEvent::Connected);
    t.on_event(HandshakeEvent::Sent);
    assert_eq!(t.on_event(HandshakeEvent::ReceiveFailed), Some(HandshakeAction::CloseConnection));
    assert_eq!(t.outcome(), Some(Err(HandshakeFailure::ShortRead)));
}

#[test]
fn session_reports_unreachable() {
    let mut s = HandshakeSession::new(id(1), id(77));
    assert_eq!(s.on_event(HandshakeEvent::ConnectFailed), Some(HandshakeAction::CloseConnection));
    assert_eq!(s.outcome(), Some(Err(HandshakeFailure::Unreachable)));

    let mut t = HandshakeSession::new(id(1), id(77));
    t.on_event(HandshakeEvent::Connected);
    t.on_event(HandshakeEvent::SendFailed);
    assert_eq!(t.outcome(), Some(Err(HandshakeFailure::Unreachable)));
}

#[test]
fn ended_session_ignores_further_events() {
    let mut s = HandshakeSession::new(id(1), id(77));
    s.on_event(HandshakeEvent::ConnectFailed);
    assert_eq!(s.on_event(HandshakeEvent::Connected), None);
    assert_eq!(s.outcome(), Some(Err(HandshakeFailure::Unreachable)));
}

#[test]
fn unexpected_event_is_ignored() {
    let mut s = HandshakeSession::new(id(1), id(77));
    assert_eq!(s.on_event(HandshakeEvent::Sent), None);
    assert_eq!(s.state, HandshakeState::Connecting);
}

#[test]
fn failed_peer_does_not_abort_the_others() {
    let mut o = Orchestrator::new(3, id(1), id(77));
    let good = serialize_peer_handshake(&gen_peer_handshake(id(9), id(77)));
    let other = serialize_peer_handshake(&gen_peer_handshake(id(9), id(66)));
    o.on_peer_event(0, HandshakeEvent::Connected);
    o.on_peer_event(1, HandshakeEvent::ConnectFailed);
    o.on_peer_event(2, HandshakeEvent::Connected);
    assert!(!o.is_complete());
    o.on_peer_event(0, HandshakeEvent::Sent);
    o.on_peer_event(2, HandshakeEvent::Sent);
    o.on_peer_event(2, HandshakeEvent::Received(other.to_vec()));
    o.on_peer_event(0, HandshakeEvent::Received(good.to_vec()));
    assert!(o.is_complete());
    assert_eq!(
        o.outcomes(),
        vec![
            Some(Ok(())),
            Some(Err(HandshakeFailure::Unreachable)),
            Some(Err(HandshakeFailure::ContentMismatch)),
        ]
    );
}

#[test]
fn empty_batch_is_complete() {
    let o = Orchestrator::new(0, id(1), id(2));
    assert!(o.is_complete());
    assert!(o.outcomes().is_empty());
}
