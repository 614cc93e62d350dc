//! The fixed 68-byte handshake that opens every peer connection.

use vstd::prelude::*;

verus! {

/// Size in bytes of a handshake on the wire.
pub const HANDSHAKE_BYTE_SIZE: usize = 68;

/// Length of the protocol name, which is also the value of the first byte.
pub const PROTOCOL_NAME_LEN: u8 = 19;

/// The ASCII bytes of `BitTorrent protocol`.
pub open spec fn protocol_name() -> Seq<u8> {
    seq![
        66u8, 105u8, 116u8, 84u8, 111u8, 114u8, 114u8, 101u8, 110u8, 116u8,
        32u8, 112u8, 114u8, 111u8, 116u8, 111u8, 99u8, 111u8, 108u8,
    ]
}

/// One handshake record, field by field in wire order.
#[derive(Debug)]
pub struct PeerHandshake {
    /// Length of the protocol name that follows: `0x13`.
    pub magic: u8,
    pub more_magic: [u8; 19],
    pub reserved_bytes: [u8; 8],
    pub metainfo_hash_bytes: [u8; 20],
    pub peer_id_bytes: [u8; 20],
}

/// A handshake as plain sequences.
pub struct HandshakeModel {
    pub magic: u8,
    pub more_magic: Seq<u8>,
    pub reserved_bytes: Seq<u8>,
    pub metainfo_hash_bytes: Seq<u8>,
    pub peer_id_bytes: Seq<u8>,
}

impl HandshakeModel {
    /// Every field has the width the layout gives it.
    pub open spec fn wf(self) -> bool {
        &&& self.more_magic.len() == 19
        &&& self.reserved_bytes.len() == 8
        &&& self.metainfo_hash_bytes.len() == 20
        &&& self.peer_id_bytes.len() == 20
    }
}

impl View for PeerHandshake {
    type V = HandshakeModel;

    open spec fn view(&self) -> HandshakeModel {
        HandshakeModel {
            magic: self.magic,
            more_magic: self.more_magic@,
            reserved_bytes: self.reserved_bytes@,
            metainfo_hash_bytes: self.metainfo_hash_bytes@,
            peer_id_bytes: self.peer_id_bytes@,
        }
    }
}

/// The wire form: the fields one after another, with no gaps.
pub open spec fn encode_handshake(h: HandshakeModel) -> Seq<u8> {
    seq![h.magic] + h.more_magic + h.reserved_bytes + h.metainfo_hash_bytes + h.peer_id_bytes
}

/// The fields read back from the first 68 bytes of `b`.
pub open spec fn decode_handshake(b: Seq<u8>) -> HandshakeModel {
    HandshakeModel {
        magic: b[0],
        more_magic: b.subrange(1, 20),
        reserved_bytes: b.subrange(20, 28),
        metainfo_hash_bytes: b.subrange(28, 48),
        peer_id_bytes: b.subrange(48, 68),
    }
}

/// Two handshakes are compatible when they name the same content.
pub open spec fn compatible(a: HandshakeModel, b: HandshakeModel) -> bool {
    a.metainfo_hash_bytes == b.metainfo_hash_bytes
}

/// The handshake this client sends: protocol name, zeroed reserved bytes, and the two
/// identifiers.
pub open spec fn local_handshake(peer_id: Seq<u8>, content_id: Seq<u8>) -> HandshakeModel {
    HandshakeModel {
        magic: 19u8,
        more_magic: protocol_name(),
        reserved_bytes: Seq::new(8, |i: int| 0u8),
        metainfo_hash_bytes: content_id,
        peer_id_bytes: peer_id,
    }
}

/// Builds the handshake this client sends for the given identifiers.
pub fn gen_peer_handshake(peer_id_bytes: [u8; 20], metainfo_hash_bytes: [u8; 20]) -> (r:
    PeerHandshake)
    ensures
        r@ == local_handshake(peer_id_bytes@, metainfo_hash_bytes@),
{
    let more_magic: [u8; 19] = [
        66u8, 105u8, 116u8, 84u8, 111u8, 114u8, 114u8, 101u8, 110u8, 116u8,
        32u8, 112u8, 114u8, 111u8, 116u8, 111u8, 99u8, 111u8, 108u8,
    ];
    let reserved_bytes: [u8; 8] = [0u8; 8];
    let r = PeerHandshake {
        magic: PROTOCOL_NAME_LEN,
        more_magic,
        reserved_bytes,
        metainfo_hash_bytes,
        peer_id_bytes,
    };
    assert(r@.more_magic =~= protocol_name());
    assert(r@.reserved_bytes =~= Seq::new(8, |i: int| 0u8));
    r
}

/// Lays the handshake out in its 68-byte wire form.
pub fn serialize_peer_handshake(handshake: &PeerHandshake) -> (r: [u8; HANDSHAKE_BYTE_SIZE])
    ensures
        r@ == encode_handshake(handshake@),
{
    let ghost wire = encode_handshake(handshake@);
    let mut out: [u8; HANDSHAKE_BYTE_SIZE] = [0u8; HANDSHAKE_BYTE_SIZE];
    out[0] = handshake.magic;
    for i in 0..19
        invariant
            wire == encode_handshake(handshake@),
            forall|j: int| 0 <= j < 1 + i ==> out@[j] == wire[j],
    {
        out[1 + i] = handshake.more_magic[i];
    }
    for i in 0..8
        invariant
            wire == encode_handshake(handshake@),
            forall|j: int| 0 <= j < 20 + i ==> out@[j] == wire[j],
    {
        out[20 + i] = handshake.reserved_bytes[i];
    }
    for i in 0..20
        invariant
            wire == encode_handshake(handshake@),
            forall|j: int| 0 <= j < 28 + i ==> out@[j] == wire[j],
    {
        out[28 + i] = handshake.metainfo_hash_bytes[i];
    }
    for i in 0..20
        invariant
            wire == encode_handshake(handshake@),
            forall|j: int| 0 <= j < 48 + i ==> out@[j] == wire[j],
    {
        out[48 + i] = handshake.peer_id_bytes[i];
    }
    assert(out@ =~= wire);
    out
}

/// Reads a handshake from the first 68 bytes of `bytes`.
pub fn deserialize_peer_handshake(bytes: &[u8]) -> (r: PeerHandshake)
    requires
        bytes@.len() >= HANDSHAKE_BYTE_SIZE,
    ensures
        r@ == decode_handshake(bytes@),
{
    let mut more_magic: [u8; 19] = [0u8; 19];
    for i in 0..19
        invariant
            bytes@.len() >= 68,
            forall|j: int| 0 <= j < i ==> more_magic@[j] == bytes@[1 + j],
    {
        more_magic[i] = bytes[1 + i];
    }
    let mut reserved_bytes: [u8; 8] = [0u8; 8];
    for i in 0..8
        invariant
            bytes@.len() >= 68,
            forall|j: int| 0 <= j < i ==> reserved_bytes@[j] == bytes@[20 + j],
    {
        reserved_bytes[i] = bytes[20 + i];
    }
    let mut metainfo_hash_bytes: [u8; 20] = [0u8; 20];
    for i in 0..20
        invariant
            bytes@.len() >= 68,
            forall|j: int| 0 <= j < i ==> metainfo_hash_bytes@[j] == bytes@[28 + j],
    {
        metainfo_hash_bytes[i] = bytes[28 + i];
    }
    let mut peer_id_bytes: [u8; 20] = [0u8; 20];
    for i in 0..20
        invariant
            bytes@.len() >= 68,
            forall|j: int| 0 <= j < i ==> peer_id_bytes@[j] == bytes@[48 + j],
    {
        peer_id_bytes[i] = bytes[48 + i];
    }
    let r = PeerHandshake {
        magic: bytes[0],
        more_magic,
        reserved_bytes,
        metainfo_hash_bytes,
        peer_id_bytes,
    };
    assert(r@.more_magic =~= bytes@.subrange(1, 20));
    assert(r@.reserved_bytes =~= bytes@.subrange(20, 28));
    assert(r@.metainfo_hash_bytes =~= bytes@.subrange(28, 48));
    assert(r@.peer_id_bytes =~= bytes@.subrange(48, 68));
    r
}

/// Whether two handshakes carry the same content identifier, byte for byte.
pub fn handshakes_compatible(a: &PeerHandshake, b: &PeerHandshake) -> (r: bool)
    ensures
        r == compatible(a@, b@),
{
    let mut i: usize = 0;
    while i < 20
        invariant
            i <= 20,
            forall|j: int| 0 <= j < i ==> a.metainfo_hash_bytes@[j] == b.metainfo_hash_bytes@[j],
        decreases 20 - i,
    {
        if a.metainfo_hash_bytes[i] != b.metainfo_hash_bytes[i] {
            return false;
        }
        i += 1;
    }
    assert(a@.metainfo_hash_bytes =~= b@.metainfo_hash_bytes);
    true
}

/// Decoding the 68-byte wire form of a handshake gives back every field unchanged.
pub proof fn lemma_handshake_round_trip(handshake: &PeerHandshake)
    ensures
        handshake@.wf(),
        encode_handshake(handshake@).len() == HANDSHAKE_BYTE_SIZE,
        decode_handshake(encode_handshake(handshake@)) == handshake@,
{
    let h = handshake@;
    let w = encode_handshake(h);
    assert(decode_handshake(w).more_magic =~= h.more_magic);
    assert(decode_handshake(w).reserved_bytes =~= h.reserved_bytes);
    assert(decode_handshake(w).metainfo_hash_bytes =~= h.metainfo_hash_bytes);
    assert(decode_handshake(w).peer_id_bytes =~= h.peer_id_bytes);
}

/// Handshakes whose content identifiers are equal are compatible, and a difference in any
/// one byte of that field makes them incompatible.
pub proof fn lemma_compatible_iff_identifiers_equal(a: &PeerHandshake, b: &PeerHandshake, i: int)
    ensures
        a.metainfo_hash_bytes@ == b.metainfo_hash_bytes@ ==> compatible(a@, b@),
        0 <= i < 20 && a.metainfo_hash_bytes@[i] != b.metainfo_hash_bytes@[i] ==> !compatible(
            a@,
            b@,
        ),
{
}

} // verus!
