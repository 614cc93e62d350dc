//! The metainfo model: the description of a torrent, its validation, and the content
//! identifier derived from it.

use vstd::prelude::*;

use crate::text::{hex_char, hex_digit, push_char};

verus! {

/// SHA-1 digest of a byte sequence.
pub uninterp spec fn sha1_of(data: Seq<u8>) -> Seq<u8>;

/// Relies on `sha1::Sha1::digest` (through `digest::Digest`): the SHA-1 digest of
/// `data`, whose 20 bytes depend on `data` alone.
#[verifier::external_body]
fn sha1_digest(data: &[u8]) -> (r: [u8; 20])
    ensures
        r@ == sha1_of(data@),
{
    <sha1::Sha1 as sha1::Digest>::digest(data).into()
}

/// Why a metainfo description, or a lookup in it, was refused.
#[derive(PartialEq, Eq, Structural, Clone, Copy, Debug)]
pub enum TorrentError {
    /// Required fields are missing or of the wrong shape, `length` and `files` are not
    /// exactly one, or the re-encoded info does not match the input.
    MalformedMetainfo,
    /// The requested piece lies past the end of `pieces`.
    IndexOutOfRange,
}

/// One file of a multi-file torrent.
#[derive(Debug)]
pub struct File {
    /// Length of the file in bytes.
    pub length: u64,
    /// Directory names followed by the file name; never empty.
    pub path: Vec<String>,
}

/// The `info` dictionary of a torrent.
#[derive(Debug)]
pub struct TorrentInfo {
    /// Suggested name of the file or directory; advisory only.
    pub name: String,
    /// Bytes per piece.
    pub piece_length: u32,
    /// The concatenated 20-byte digests of the pieces, in piece order.
    pub pieces: Vec<u8>,
    /// Length of the single file, when the torrent has one file.
    pub length: Option<u32>,
    /// The files, when the torrent has several.
    pub files: Option<Vec<File>>,
}

/// Every path in `files` has at least one segment.
pub open spec fn paths_non_empty(files: Seq<File>) -> bool {
    forall|i: int| 0 <= i < files.len() ==> (#[trigger] files[i]).path@.len() > 0
}

impl TorrentInfo {
    /// The invariants of the data model: positive piece length, whole 20-byte digests,
    /// exactly one of `length` and `files`, and no empty path.
    pub open spec fn wf(&self) -> bool {
        &&& self.piece_length > 0
        &&& self.pieces@.len() % 20 == 0
        &&& (self.length is Some) != (self.files is Some)
        &&& (self.files matches Some(fs) ==> paths_non_empty(fs@))
    }

    /// Whether the invariants of the data model hold.
    pub fn is_well_formed(&self) -> (r: bool)
        ensures
            r == self.wf(),
    {
        if self.piece_length == 0 || self.pieces.len() % 20 != 0 {
            return false;
        }
        match &self.files {
            None => self.length.is_some(),
            Some(files) => {
                if self.length.is_some() {
                    return false;
                }
                let mut i: usize = 0;
                while i < files.len()
                    invariant
                        self.files == Some(*files),
                        i <= files@.len(),
                        forall|j: int| 0 <= j < i ==> (#[trigger] files@[j]).path@.len() > 0,
                    decreases files@.len() - i,
                {
                    if files[i].path.len() == 0 {
                        assert(!paths_non_empty(files@));
                        return false;
                    }
                    i += 1;
                }
                true
            },
        }
    }

    /// The digest of piece `index`: the 20 bytes of `pieces` at offset `20 * index`.
    pub fn get_piece_sha1(&self, index: u32) -> (r: Result<[u8; 20], TorrentError>)
        ensures
            match r {
                Ok(d) => 20 * index + 20 <= self.pieces@.len() && d@ == self.pieces@.subrange(
                    20 * index,
                    20 * index + 20,
                ),
                Err(e) => e == TorrentError::IndexOutOfRange && 20 * index + 20
                    > self.pieces@.len(),
            },
    {
        let start: u64 = 20 * (index as u64);
        if start + 20 > self.pieces.len() as u64 {
            return Err(TorrentError::IndexOutOfRange);
        }
        let start = start as usize;
        let mut d: [u8; 20] = [0u8; 20];
        let plen = self.pieces.len();
        let mut i: usize = 0;
        while i < 20
            invariant
                plen == self.pieces@.len(),
                start + 20 <= self.pieces@.len(),
                i <= 20,
                forall|j: int| 0 <= j < i ==> d@[j] == self.pieces@[start + j],
            decreases 20 - i,
        {
            d[i] = self.pieces[start + i];
            i += 1;
        }
        assert(d@ =~= self.pieces@.subrange(start as int, start + 20));
        Ok(d)
    }
}

/// A parsed torrent: the tracker URL and the info dictionary, with the canonical
/// encoding of that dictionary from which the content identifier is computed.
#[derive(Debug)]
pub struct TorrentMetainfo {
    /// The tracker URL.
    pub announce: String,
    pub info: TorrentInfo,
    /// The info dictionary re-encoded with sorted keys and minimal integers.
    pub info_encoded: Vec<u8>,
}

/// The bytes `4:info`: the key under which the info dictionary is stored.
pub open spec fn info_key() -> Seq<u8> {
    seq![52u8, 58u8, 105u8, 110u8, 102u8, 111u8]
}

/// `source` holds the key `info` followed by `encoded` at offset `at`.
pub open spec fn info_encoded_at(source: Seq<u8>, encoded: Seq<u8>, at: int) -> bool {
    &&& 0 <= at
    &&& at + 6 + encoded.len() <= source.len()
    &&& source.subrange(at, at + 6 + encoded.len()) == info_key() + encoded
}

/// The re-encoded info dictionary occurs verbatim in the input as the value of `info`,
/// so decoding and re-encoding lost nothing.
pub open spec fn encoding_is_faithful(source: Seq<u8>, encoded: Seq<u8>) -> bool {
    exists|at: int| info_encoded_at(source, encoded, at)
}

/// The content identifier: the SHA-1 digest of the re-encoded info dictionary.
pub open spec fn content_identifier(m: &TorrentMetainfo) -> Seq<u8> {
    sha1_of(m.info_encoded@)
}

/// Each byte as `%` and two lower-case hex digits.
pub open spec fn percent_encoded(b: Seq<u8>) -> Seq<char>
    decreases b.len(),
{
    if b.len() == 0 {
        seq![]
    } else {
        percent_encoded(b.drop_last()) + seq![
            '%',
            hex_char(b.last() as int / 16),
            hex_char(b.last() as int % 16),
        ]
    }
}

fn info_key_byte(k: usize) -> (r: u8)
    requires
        k < 6,
    ensures
        r == info_key()[k as int],
{
    let key: [u8; 6] = [52u8, 58u8, 105u8, 110u8, 102u8, 111u8];
    assert(key@ =~= info_key());
    key[k]
}

/// Whether `source` holds `4:info` followed by `encoded` at offset `at`.
fn info_encoded_at_offset(source: &[u8], encoded: &[u8], at: usize) -> (r: bool)
    requires
        at + 6 + encoded@.len() <= source@.len(),
    ensures
        r == info_encoded_at(source@, encoded@, at as int),
{
    let ghost want = info_key() + encoded@;
    let total = source.len();
    let n = 6 + encoded.len();
    let mut k: usize = 0;
    while k < n
        invariant
            n == 6 + encoded@.len(),
            at + n <= source@.len(),
            total == source@.len(),
            k <= n,
            want == info_key() + encoded@,
            forall|j: int| 0 <= j < k ==> source@[at + j] == want[j],
        decreases n - k,
    {
        let expected = if k < 6 {
            info_key_byte(k)
        } else {
            encoded[k - 6]
        };
        if source[at + k] != expected {
            assert(source@.subrange(at as int, at + n)[k as int] != want[k as int]);
            return false;
        }
        k += 1;
    }
    assert(source@.subrange(at as int, at + n) =~= want);
    true
}

/// Whether the re-encoded info dictionary occurs in `source` right after the key `info`.
pub fn info_encoding_is_faithful(source: &[u8], encoded: &[u8]) -> (r: bool)
    ensures
        r == encoding_is_faithful(source@, encoded@),
{
    if source.len() < encoded.len() || source.len() - encoded.len() < 6 {
        assert forall|at: int| !info_encoded_at(source@, encoded@, at) by {}
        return false;
    }
    let last = source.len() - encoded.len() - 6;
    let mut at: usize = 0;
    while at <= last
        invariant
            last + 6 + encoded@.len() == source@.len(),
            last < usize::MAX,
            at <= last + 1,
            forall|a: int| 0 <= a < at ==> !info_encoded_at(source@, encoded@, a),
        decreases last + 1 - at,
    {
        if info_encoded_at_offset(source, encoded, at) {
            return true;
        }
        at += 1;
    }
    assert forall|a: int| !info_encoded_at(source@, encoded@, a) by {
        if 0 <= a < at {
        }
    }
    false
}

/// Renders each byte as `%` followed by two lower-case hex digits.
pub fn url_encode_bytes(bytes: &[u8]) -> (r: String)
    ensures
        r@ == percent_encoded(bytes@),
{
    let mut s = String::new();
    for i in 0..bytes.len()
        invariant
            s@ == percent_encoded(bytes@.subrange(0, i as int)),
    {
        let b = bytes[i];
        push_char(&mut s, '%');
        push_char(&mut s, hex_digit(b / 16));
        push_char(&mut s, hex_digit(b % 16));
        assert(bytes@.subrange(0, i + 1).drop_last() =~= bytes@.subrange(0, i as int));
    }
    assert(bytes@.subrange(0, bytes@.len() as int) =~= bytes@);
    s
}

impl TorrentMetainfo {
    /// The metainfo invariants: a well-formed info dictionary whose re-encoding was
    /// found verbatim in the input.
    pub open spec fn wf(&self, source: Seq<u8>) -> bool {
        self.info.wf() && encoding_is_faithful(source, self.info_encoded@)
    }

    /// Assembles a metainfo from the fields decoded out of `source` and the decoder's
    /// re-encoding of the info dictionary. Fails with `MalformedMetainfo` when the info
    /// dictionary breaks an invariant or its re-encoding does not occur in `source`
    /// after the key `info`.
    pub fn parse(source: &[u8], announce: String, info: TorrentInfo, info_encoded: Vec<u8>) -> (r:
        Result<TorrentMetainfo, TorrentError>)
        ensures
            match r {
                Ok(m) => {
                    &&& m.wf(source@)
                    &&& m.announce == announce
                    &&& m.info == info
                    &&& m.info_encoded == info_encoded
                },
                Err(e) => e == TorrentError::MalformedMetainfo && !(info.wf()
                    && encoding_is_faithful(source@, info_encoded@)),
            },
    {
        if !info.is_well_formed() {
            return Err(TorrentError::MalformedMetainfo);
        }
        if !info_encoding_is_faithful(source, info_encoded.as_slice()) {
            return Err(TorrentError::MalformedMetainfo);
        }
        Ok(TorrentMetainfo { announce, info, info_encoded })
    }

    /// The 20-byte content identifier.
    pub fn gen_info_hash_bytes(&self) -> (r: [u8; 20])
        ensures
            r@ == content_identifier(self),
    {
        sha1_digest(self.info_encoded.as_slice())
    }

    /// The content identifier percent-encoded for a tracker query.
    pub fn gen_info_hash(&self) -> (r: String)
        ensures
            r@ == percent_encoded(content_identifier(self)),
    {
        let id = self.gen_info_hash_bytes();
        url_encode_bytes(&id)
    }
}

/// Computing the content identifier twice from the same info dictionary gives the
/// same 20 bytes.
pub proof fn lemma_content_identifier_deterministic(a: &TorrentMetainfo, b: &TorrentMetainfo)
    requires
        a.info_encoded@ == b.info_encoded@,
    ensures
        content_identifier(a) == content_identifier(b),
{
}

} // verus!
