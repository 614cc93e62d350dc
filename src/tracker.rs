//! The tracker client: the announce request, the announce response, and the compact
//! peer lists inside it.

use vstd::prelude::*;

use crate::text::{append_decimal, append_dotted_quad, append_ipv6, decimal, dotted_quad, ipv6_text, push_char};
use crate::torrent::{content_identifier, percent_encoded, url_encode_bytes, TorrentMetainfo};

verus! {

/// Size of one IPv4 record in a compact peer list.
pub const COMPACT_PEER_SIZE: usize = 6;

/// Size of one IPv6 record in a compact peer list.
pub const COMPACT_PEER6_SIZE: usize = 18;

/// The 16-bit value whose most significant byte is `hi`.
pub open spec fn be_u16(hi: u8, lo: u8) -> u16 {
    (hi as int * 256 + lo as int) as u16
}

/// Reads a big-endian 16-bit value.
pub fn port_from_be_bytes(hi: u8, lo: u8) -> (r: u16)
    ensures
        r == be_u16(hi, lo),
        r as int == hi as int * 256 + lo as int,
{
    (hi as u16) * 256 + (lo as u16)
}

/// A peer address as plain values: the address bytes and the port.
pub struct PeerModel {
    pub ip: Seq<u8>,
    pub port: u16,
}

/// A peer that can be connected to.
pub trait ConnectablePeer {
    /// Textual form of the address.
    spec fn ip_text(&self) -> Seq<char>;

    /// The port.
    spec fn port_number(&self) -> u16;

    fn ip(&self) -> (r: String)
        ensures
            r@ == self.ip_text(),
    ;

    fn port(&self) -> (r: u16)
        ensures
            r == self.port_number(),
    ;
}

/// A peer as a tracker describes it in the non-compact form.
#[derive(Debug)]
pub struct TorrentPeer {
    pub peer_id: String,
    /// The IPv4 address, most significant byte first.
    pub ip: [u8; 4],
    pub port: u16,
}

/// One IPv4 record of a compact peer list.
#[derive(Clone, Copy, Debug)]
pub struct CompactTorrentPeer {
    /// The IPv4 address, most significant byte first.
    pub ip: [u8; 4],
    pub port: u16,
}

/// One IPv6 record of a compact peer list.
#[derive(Clone, Copy, Debug)]
pub struct CompactTorrentPeer6 {
    /// The IPv6 address as eight 16-bit groups, most significant byte first.
    pub ip: [[u8; 2]; 8],
    pub port: u16,
}

impl View for CompactTorrentPeer {
    type V = PeerModel;

    open spec fn view(&self) -> PeerModel {
        PeerModel { ip: self.ip@, port: self.port }
    }
}

/// The bytes of eight 16-bit groups, in order.
pub open spec fn flatten_groups(groups: [[u8; 2]; 8]) -> Seq<u8> {
    Seq::new(16, |k: int| groups@[k / 2]@[k % 2])
}

impl View for CompactTorrentPeer6 {
    type V = PeerModel;

    open spec fn view(&self) -> PeerModel {
        PeerModel { ip: flatten_groups(self.ip), port: self.port }
    }
}

impl ConnectablePeer for TorrentPeer {
    open spec fn ip_text(&self) -> Seq<char> {
        dotted_quad(self.ip@)
    }

    open spec fn port_number(&self) -> u16 {
        self.port
    }

    fn ip(&self) -> (r: String) {
        let mut s = String::new();
        append_dotted_quad(&mut s, &self.ip);
        s
    }

    fn port(&self) -> (r: u16) {
        self.port
    }
}

impl ConnectablePeer for CompactTorrentPeer {
    open spec fn ip_text(&self) -> Seq<char> {
        dotted_quad(self.ip@)
    }

    open spec fn port_number(&self) -> u16 {
        self.port
    }

    fn ip(&self) -> (r: String) {
        let mut s = String::new();
        append_dotted_quad(&mut s, &self.ip);
        s
    }

    fn port(&self) -> (r: u16) {
        self.port
    }
}

impl CompactTorrentPeer6 {
    /// The sixteen address bytes in order.
    pub fn address_bytes(&self) -> (r: [u8; 16])
        ensures
            r@ == self@.ip,
    {
        let mut r: [u8; 16] = [0u8; 16];
        let mut g: usize = 0;
        while g < 8
            invariant
                g <= 8,
                forall|k: int| 0 <= k < 2 * g ==> r@[k] == #[trigger] flatten_groups(self.ip)[k],
            decreases 8 - g,
        {
            let group = self.ip[g];
            r[2 * g] = group[0];
            r[2 * g + 1] = group[1];
            g += 1;
        }
        assert(r@ =~= self@.ip);
        r
    }
}

impl ConnectablePeer for CompactTorrentPeer6 {
    open spec fn ip_text(&self) -> Seq<char> {
        ipv6_text(self@.ip)
    }

    open spec fn port_number(&self) -> u16 {
        self.port
    }

    fn ip(&self) -> (r: String) {
        let bytes = self.address_bytes();
        let mut s = String::new();
        append_ipv6(&mut s, &bytes);
        s
    }

    fn port(&self) -> (r: u16) {
        self.port
    }
}

/// The IPv4 peers of a compact list: one per whole six-byte record, in order; a
/// trailing partial record is dropped.
pub open spec fn decode_v4(buf: Seq<u8>) -> Seq<PeerModel> {
    Seq::new(
        buf.len() / 6,
        |i: int|
            PeerModel {
                ip: buf.subrange(6 * i, 6 * i + 4),
                port: be_u16(buf[6 * i + 4], buf[6 * i + 5]),
            },
    )
}

/// The IPv6 peers of a compact list: one per whole eighteen-byte record, in order; a
/// trailing partial record is dropped.
pub open spec fn decode_v6(buf: Seq<u8>) -> Seq<PeerModel> {
    Seq::new(
        buf.len() / 18,
        |i: int|
            PeerModel {
                ip: buf.subrange(18 * i, 18 * i + 16),
                port: be_u16(buf[18 * i + 16], buf[18 * i + 17]),
            },
    )
}

/// Cuts a compact IPv4 peer list into six-byte records from offset 0, dropping a trailing
/// partial record.
pub fn decode_compact_peers(buf: &[u8]) -> (r: Vec<CompactTorrentPeer>)
    ensures
        r@.len() == decode_v4(buf@).len(),
        forall|i: int| 0 <= i < r@.len() ==> #[trigger] r@[i]@ == decode_v4(buf@)[i],
{
    let len = buf.len();
    let n = len / COMPACT_PEER_SIZE;
    let mut peers: Vec<CompactTorrentPeer> = Vec::new();
    let mut i: usize = 0;
    while i < n
        invariant
            len == buf@.len(),
            n == buf@.len() / 6,
            i <= n,
            peers@.len() == i,
            forall|j: int| 0 <= j < i ==> #[trigger] peers@[j]@ == decode_v4(buf@)[j],
        decreases n - i,
    {
        assert(i * 6 + 6 <= len) by (nonlinear_arith)
            requires
                i < n,
                n == len / 6,
        ;
        let s = i * COMPACT_PEER_SIZE;
        let ip: [u8; 4] = [buf[s], buf[s + 1], buf[s + 2], buf[s + 3]];
        let port = port_from_be_bytes(buf[s + 4], buf[s + 5]);
        let peer = CompactTorrentPeer { ip, port };
        assert(peer@.ip =~= buf@.subrange(6 * i, 6 * i + 4));
        peers.push(peer);
        i += 1;
    }
    peers
}

/// Reads the sixteen address bytes of an IPv6 record starting at `s` as eight groups.
fn read_v6_groups(buf: &[u8], s: usize) -> (r: [[u8; 2]; 8])
    requires
        s + 16 <= buf@.len(),
    ensures
        flatten_groups(r) == buf@.subrange(s as int, s + 16),
{
    let len = buf.len();
    let mut ip: [[u8; 2]; 8] = [[0u8; 2]; 8];
    let mut g: usize = 0;
    while g < 8
        invariant
            len == buf@.len(),
            s + 16 <= buf@.len(),
            g <= 8,
            forall|h: int| 0 <= h < g ==> (#[trigger] ip@[h])@ == seq![buf@[s + 2 * h], buf@[s + 2 * h + 1]],
        decreases 8 - g,
    {
        let group: [u8; 2] = [buf[s + 2 * g], buf[s + 2 * g + 1]];
        assert(group@ =~= seq![buf@[s + 2 * g], buf@[s + 2 * g + 1]]);
        ip[g] = group;
        g += 1;
    }
    assert forall|k: int| 0 <= k < 16 implies #[trigger] flatten_groups(ip)[k] == buf@[s + k] by {
        let h = k / 2;
        assert(ip@[h]@ == seq![buf@[s + 2 * h], buf@[s + 2 * h + 1]]);
    }
    assert(flatten_groups(ip) =~= buf@.subrange(s as int, s + 16));
    ip
}

/// Cuts a compact IPv6 peer list into eighteen-byte records from offset 0, dropping a
/// trailing partial record.
pub fn decode_compact_peers6(buf: &[u8]) -> (r: Vec<CompactTorrentPeer6>)
    ensures
        r@.len() == decode_v6(buf@).len(),
        forall|i: int| 0 <= i < r@.len() ==> #[trigger] r@[i]@ == decode_v6(buf@)[i],
{
    let len = buf.len();
    let n = len / COMPACT_PEER6_SIZE;
    let mut peers: Vec<CompactTorrentPeer6> = Vec::new();
    let mut i: usize = 0;
    while i < n
        invariant
            len == buf@.len(),
            n == buf@.len() / 18,
            i <= n,
            peers@.len() == i,
            forall|j: int| 0 <= j < i ==> #[trigger] peers@[j]@ == decode_v6(buf@)[j],
        decreases n - i,
    {
        assert(i * 18 + 18 <= len) by (nonlinear_arith)
            requires
                i < n,
                n == len / 18,
        ;
        let s = i * COMPACT_PEER6_SIZE;
        let ip = read_v6_groups(buf, s);
        let port = port_from_be_bytes(buf[s + 16], buf[s + 17]);
        let peer = CompactTorrentPeer6 { ip, port };
        assert(peer@.ip =~= buf@.subrange(18 * i, 18 * i + 16));
        peers.push(peer);
        i += 1;
    }
    peers
}

/// Bytes after the last whole record of a compact list change nothing in its decoding.
pub proof fn lemma_partial_record_dropped(buf: Seq<u8>, extra: Seq<u8>)
    ensures
        buf.len() % 6 == 0 && extra.len() < 6 ==> decode_v4(buf + extra) == decode_v4(buf),
        buf.len() % 18 == 0 && extra.len() < 18 ==> decode_v6(buf + extra) == decode_v6(buf),
{
    let all = buf + extra;
    if buf.len() % 6 == 0 && extra.len() < 6 {
        assert(all.len() / 6 == buf.len() / 6);
        assert forall|i: int| 0 <= i < buf.len() / 6 implies #[trigger] decode_v4(all)[i]
            == decode_v4(buf)[i] by {
            assert(all.subrange(6 * i, 6 * i + 4) =~= buf.subrange(6 * i, 6 * i + 4));
        }
        assert(decode_v4(all) =~= decode_v4(buf));
    }
    if buf.len() % 18 == 0 && extra.len() < 18 {
        assert(all.len() / 18 == buf.len() / 18);
        assert forall|i: int| 0 <= i < buf.len() / 18 implies #[trigger] decode_v6(all)[i]
            == decode_v6(buf)[i] by {
            assert(all.subrange(18 * i, 18 * i + 16) =~= buf.subrange(18 * i, 18 * i + 16));
        }
        assert(decode_v6(all) =~= decode_v6(buf));
    }
}


/// A candidate peer from either compact list.
#[derive(Debug)]
pub enum CandidatePeer {
    V4(CompactTorrentPeer),
    V6(CompactTorrentPeer6),
}

impl ConnectablePeer for CandidatePeer {
    open spec fn ip_text(&self) -> Seq<char> {
        match self {
            CandidatePeer::V4(p) => p.ip_text(),
            CandidatePeer::V6(p) => p.ip_text(),
        }
    }

    open spec fn port_number(&self) -> u16 {
        match self {
            CandidatePeer::V4(p) => p.port,
            CandidatePeer::V6(p) => p.port,
        }
    }

    fn ip(&self) -> (r: String) {
        match self {
            CandidatePeer::V4(p) => p.ip(),
            CandidatePeer::V6(p) => p.ip(),
        }
    }

    fn port(&self) -> (r: u16) {
        match self {
            CandidatePeer::V4(p) => p.port,
            CandidatePeer::V6(p) => p.port,
        }
    }
}

/// The `host:port` text a connection is opened to; an IPv6 host stands in brackets.
pub open spec fn socket_address_text(p: &CandidatePeer) -> Seq<char> {
    match p {
        CandidatePeer::V4(q) => q.ip_text() + seq![':'] + decimal(q.port as nat),
        CandidatePeer::V6(q) => seq!['['] + q.ip_text() + seq![']', ':'] + decimal(q.port as nat),
    }
}

impl CandidatePeer {
    /// The address to connect to, as `host:port`.
    pub fn socket_address(&self) -> (r: String)
        ensures
            r@ == socket_address_text(self),
    {
        let mut s = String::new();
        match self {
            CandidatePeer::V4(p) => {
                append_dotted_quad(&mut s, &p.ip);
                push_char(&mut s, ':');
                append_decimal(&mut s, p.port as u64);
            },
            CandidatePeer::V6(p) => {
                let bytes = p.address_bytes();
                push_char(&mut s, '[');
                append_ipv6(&mut s, &bytes);
                push_char(&mut s, ']');
                push_char(&mut s, ':');
                append_decimal(&mut s, p.port as u64);
            },
        }
        assert(s@ =~= socket_address_text(self));
        s
    }
}

/// The parameters of one announce request.
#[derive(Debug)]
pub struct TrackerGetRequest {
    /// The 20-byte content identifier.
    pub info_hash: Vec<u8>,
    /// This client's 20-character identifier.
    pub peer_id: String,
    /// The port this client listens on.
    pub port: u16,
    /// Bytes uploaded so far.
    pub uploaded: u64,
    /// Bytes downloaded so far.
    pub downloaded: u64,
    /// Bytes still to download.
    pub left: u64,
}

impl TrackerGetRequest {
    /// The request for `metainfo`, carrying its content identifier.
    pub fn new(
        metainfo: &TorrentMetainfo,
        peer_id: String,
        port: u16,
        uploaded: u64,
        downloaded: u64,
        left: u64,
    ) -> (r: TrackerGetRequest)
        ensures
            r.info_hash@ == content_identifier(metainfo),
            r.peer_id == peer_id,
            r.port == port,
            r.uploaded == uploaded,
            r.downloaded == downloaded,
            r.left == left,
    {
        let id = metainfo.gen_info_hash_bytes();
        let mut info_hash: Vec<u8> = Vec::new();
        for i in 0..20
            invariant
                id@ == content_identifier(metainfo),
                info_hash@ == id@.subrange(0, i as int),
        {
            info_hash.push(id[i]);
            assert(info_hash@ =~= id@.subrange(0, i + 1));
        }
        assert(id@.subrange(0, 20) =~= id@);
        TrackerGetRequest { info_hash, peer_id, port, uploaded, downloaded, left }
    }
}

/// The announce URL: the tracker URL followed by the query parameters `peer_id`,
/// `info_hash` (percent-encoded), `port`, `left`, `downloaded`, `uploaded` and
/// `compact=1`.
pub open spec fn announce_uri(announce: Seq<char>, req: &TrackerGetRequest) -> Seq<char> {
    announce + "?peer_id="@ + req.peer_id@ + "&info_hash="@ + percent_encoded(req.info_hash@)
        + "&port="@ + decimal(req.port as nat) + "&left="@ + decimal(req.left as nat)
        + "&downloaded="@ + decimal(req.downloaded as nat) + "&uploaded="@ + decimal(
        req.uploaded as nat,
    ) + "&compact=1"@
}

/// Builds the GET URL announcing `request` to the tracker of `metainfo`.
pub fn gen_announce_get_uri(metainfo: &TorrentMetainfo, request: &TrackerGetRequest) -> (r: String)
    ensures
        r@ == announce_uri(metainfo.announce@, request),
{
    let mut s = metainfo.announce.clone();
    s.append("?peer_id=");
    s.append(request.peer_id.as_str());
    s.append("&info_hash=");
    let encoded = url_encode_bytes(request.info_hash.as_slice());
    s.append(encoded.as_str());
    s.append("&port=");
    append_decimal(&mut s, request.port as u64);
    s.append("&left=");
    append_decimal(&mut s, request.left);
    s.append("&downloaded=");
    append_decimal(&mut s, request.downloaded);
    s.append("&uploaded=");
    append_decimal(&mut s, request.uploaded);
    s.append("&compact=1");
    s
}

/// Why an announce produced no peer list.
#[derive(Debug)]
pub enum TrackerError {
    /// The transport could not reach the tracker.
    TrackerUnreachable,
    /// The response could not be decoded, or has neither a failure reason nor an interval.
    MalformedTrackerResponse,
    /// The tracker refused the request, with this reason.
    TrackerFailure(String),
}

/// A tracker's answer to an announce.
#[derive(Debug)]
pub struct TrackerGetResponse {
    /// Why the request failed; when present, no peer list is meaningful.
    pub failure_reason: Option<String>,
    /// Seconds to wait before announcing again.
    pub interval: Option<u32>,
    /// The compact IPv4 peer list.
    pub peers: Option<Vec<u8>>,
    /// The compact IPv6 peer list.
    pub peers6: Option<Vec<u8>>,
}

/// `peers` holds exactly the peers of `expected`, in order.
pub open spec fn v4_peers_are(peers: Seq<CompactTorrentPeer>, expected: Seq<PeerModel>) -> bool {
    &&& peers.len() == expected.len()
    &&& forall|i: int| 0 <= i < peers.len() ==> #[trigger] peers[i]@ == expected[i]
}

/// `peers` holds exactly the peers of `expected`, in order.
pub open spec fn v6_peers_are(peers: Seq<CompactTorrentPeer6>, expected: Seq<PeerModel>) -> bool {
    &&& peers.len() == expected.len()
    &&& forall|i: int| 0 <= i < peers.len() ==> #[trigger] peers[i]@ == expected[i]
}

/// `peers` holds the IPv4 peers of `v4` followed by the IPv6 peers of `v6`.
pub open spec fn candidates_are(peers: Seq<CandidatePeer>, v4: Seq<PeerModel>, v6: Seq<PeerModel>) -> bool {
    &&& peers.len() == v4.len() + v6.len()
    &&& forall|i: int|
        0 <= i < v4.len() ==> (#[trigger] peers[i] matches CandidatePeer::V4(p) && p@ == v4[i])
    &&& forall|i: int|
        v4.len() <= i < peers.len() ==> (#[trigger] peers[i] matches CandidatePeer::V6(p) && p@
            == v6[i - v4.len()])
}

/// The bytes of an optional compact list, absent lists counting as empty.
pub open spec fn list_bytes(list: Option<Vec<u8>>) -> Seq<u8> {
    match list {
        Some(b) => b@,
        None => seq![],
    }
}

impl TrackerGetResponse {
    /// The response has the shape of the data model: a failure reason, or an interval.
    pub open spec fn wf(&self) -> bool {
        self.failure_reason is Some || self.interval is Some
    }

    /// The IPv4 peers, or `None` when the response carries a failure reason or no
    /// compact IPv4 list.
    pub fn get_peers(&self) -> (r: Option<Vec<CompactTorrentPeer>>)
        ensures
            r is Some <==> self.failure_reason is None && self.peers is Some,
            r matches Some(v) ==> v4_peers_are(v@, decode_v4(list_bytes(self.peers))),
    {
        if self.failure_reason.is_some() {
            return None;
        }
        match &self.peers {
            Some(bytes) => Some(decode_compact_peers(bytes.as_slice())),
            None => None,
        }
    }

    /// The IPv6 peers, or `None` when the response carries a failure reason or no
    /// compact IPv6 list.
    pub fn get_peers6(&self) -> (r: Option<Vec<CompactTorrentPeer6>>)
        ensures
            r is Some <==> self.failure_reason is None && self.peers6 is Some,
            r matches Some(v) ==> v6_peers_are(v@, decode_v6(list_bytes(self.peers6))),
    {
        if self.failure_reason.is_some() {
            return None;
        }
        match &self.peers6 {
            Some(bytes) => Some(decode_compact_peers6(bytes.as_slice())),
            None => None,
        }
    }
}

/// The candidate peers of an announce response: the IPv4 peers followed by the IPv6
/// peers. Fails with the tracker's reason when it sent one, and with
/// `MalformedTrackerResponse` when it sent neither a reason nor an interval. Gives
/// `Ok(None)` when the tracker omitted both peer lists, and `Ok(Some(..))`, possibly
/// empty, when it sent at least one.
pub fn candidate_peers(response: &TrackerGetResponse) -> (r: Result<
    Option<Vec<CandidatePeer>>,
    TrackerError,
>)
    ensures
        match r {
            Err(TrackerError::TrackerFailure(reason)) => response.failure_reason matches Some(
                f,
            ) && reason@ == f@,
            Err(TrackerError::MalformedTrackerResponse) => !response.wf(),
            Err(TrackerError::TrackerUnreachable) => false,
            Ok(None) => response.wf() && response.failure_reason is None && response.peers is None
                && response.peers6 is None,
            Ok(Some(v)) => response.wf() && response.failure_reason is None && (
            response.peers is Some || response.peers6 is Some) && candidates_are(
                v@,
                decode_v4(list_bytes(response.peers)),
                decode_v6(list_bytes(response.peers6)),
            ),
        },
{
    if let Some(reason) = &response.failure_reason {
        return Err(TrackerError::TrackerFailure(reason.clone()));
    }
    if response.interval.is_none() {
        return Err(TrackerError::MalformedTrackerResponse);
    }
    if response.peers.is_none() && response.peers6.is_none() {
        return Ok(None);
    }
    let ghost v4 = decode_v4(list_bytes(response.peers));
    let ghost v6 = decode_v6(list_bytes(response.peers6));
    let mut out: Vec<CandidatePeer> = Vec::new();
    if let Some(bytes) = &response.peers {
        let list = decode_compact_peers(bytes.as_slice());
        for i in 0..list.len()
            invariant
                v4 == decode_v4(bytes@),
                v4_peers_are(list@, v4),
                out@.len() == i,
                forall|j: int| 0 <= j < i ==> (#[trigger] out@[j] matches CandidatePeer::V4(p)
                    && p@ == v4[j]),
        {
            out.push(CandidatePeer::V4(list[i]));
        }
    }
    let n4 = out.len();
    if let Some(bytes) = &response.peers6 {
        let list = decode_compact_peers6(bytes.as_slice());
        for i in 0..list.len()
            invariant
                v6 == decode_v6(bytes@),
                v6_peers_are(list@, v6),
                n4 == v4.len(),
                out@.len() == n4 + i,
                forall|j: int| 0 <= j < n4 ==> (#[trigger] out@[j] matches CandidatePeer::V4(p)
                    && p@ == v4[j]),
                forall|j: int| n4 <= j < n4 + i ==> (#[trigger] out@[j] matches CandidatePeer::V6(p)
                    && p@ == v6[j - n4]),
        {
            out.push(CandidatePeer::V6(list[i]));
        }
    }
    Ok(Some(out))
}

} // verus!
