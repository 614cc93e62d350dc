use bittorrent::torrent::{
    info_encoding_is_faithful, url_encode_bytes, File, TorrentError, TorrentInfo,
    TorrentMetainfo,
};

fn single_file_info(pieces: Vec<u8>) -> TorrentInfo {
    TorrentInfo { name: String::from("a"), piece_length: 16, pieces, length: Some(5), files: None }
}

fn source_with(encoded: &[u8]) -> Vec<u8> {
    let mut s = b"d8:announce3:url4:info".to_vec();
    s.extend_from_slice(encoded);
    s.push(b'e');
    s
}

#[test]
fn content_identifier_is_sha1_of_encoding() {
    let source = b"4:infoabc".to_vec();
    let m = TorrentMetainfo::parse(&source, String::from("u"), single_file_info(vec![]), b"abc".to_vec()).unwrap();
    let expected: [u8; 20] = [
        0xa9, 0x99, 0x3e, 0x36, 0x47, 0x06, 0x81, 0x6a, 0xba, 0x3e, 0x25, 0x71, 0x78, 0x50,
        0xc2, 0x6c, 0x9c, 0xd0, 0xd8, 0x9d,
    ];
    assert_eq!(m.gen_info_hash_bytes(), expected);
    assert_eq!(m.gen_info_hash(), "%a9%99%3e%36%47%06%81%6a%ba%3e%25%71%78%50%c2%6c%9c%d0%d8%9d");
}

#[test]
fn content_identifier_is_deterministic() {
    let enc = b"d6:lengthi5e4:name1:a12:piece lengthi16e6:pieces0:e".to_vec();
    let src = source_with(&enc);
    let a = TorrentMetainfo::parse(&src, String::from("u"), single_file_info(vec![]), enc.clone()).unwrap();
    let b = TorrentMetainfo::parse(&src, String::from("u"), single_file_info(vec![]), enc).unwrap();
    assert_eq!(a.gen_info_hash_bytes(), a.gen_info_hash_bytes());
    assert_eq!(a.gen_info_hash_bytes(), b.gen_info_hash_bytes());
}

#[test]
fn content_identifier_changes_with_one_byte() {
    let enc1 = b"d6:lengthi5e4:name1:a12:piece lengthi16e6:pieces0:e".to_vec();
    let enc2 = b"d6:lengthi6e4:name1:a12:piece lengthi16e6:pieces0:e".to_vec();
    let a = TorrentMetainfo::parse(&source_with(&enc1), String::from("u"), single_file_info(vec![]), enc1).unwrap();
    let b = TorrentMetainfo::parse(&source_with(&enc2), String::from("u"), single_file_info(vec![]), enc2).unwrap();
    assert_ne!(a.gen_info_hash_bytes(), b.gen_info_hash_bytes());
}

#[test]
fn url_encoding_keeps_leading_zero() {
    assert_eq!(url_encode_bytes(&[0x00, 0x0a, 0xff, 0x10]), "%00%0a%ff%10");
    assert_eq!(url_encode_bytes(&[]), "");
}

#[test]
fn piece_digest_lookup() {
    let mut pieces = vec![1u8; 20];
    pieces.extend(vec![2u8; 20]);
    let info = single_file_info(pieces);
    assert_eq!(info.get_piece_sha1(0), Ok([1u8; 20]));
    assert_eq!(info.get_piece_sha1(1), Ok([2u8; 20]));
    assert_eq!(info.get_piece_sha1(2), Err(TorrentError::IndexOutOfRange));
    assert_eq!(info.get_piece_sha1(u32::MAX), Err(TorrentError::IndexOutOfRange));
}

#[test]
fn well_formed_single_and_multi_file() {
    assert!(single_file_info(vec![0; 40]).is_well_formed());
    let multi = TorrentInfo {
        name: String::from("dir"),
        piece_length: 1,
        pieces: vec![],
        length: None,
        files: Some(vec![File { length: 3, path: vec![String::from("a"), String::from("b")] }]),
    };
    assert!(multi.is_well_formed());
}

#[test]
fn malformed_info_is_refused() {
    let both = TorrentInfo { files: Some(vec![]), ..single_file_info(vec![]) };
    assert!(!both.is_well_formed());
    let neither = TorrentInfo { length: None, ..single_file_info(vec![]) };
    assert!(!neither.is_well_formed());
    assert!(!single_file_info(vec![0; 19]).is_well_formed());
    let zero_piece = TorrentInfo { piece_length: 0, ..single_file_info(vec![]) };
    assert!(!zero_piece.is_well_formed());
    let empty_path = TorrentInfo {
        length: None,
        files: Some(vec![File { length: 1, path: vec![] }]),
        ..single_file_info(vec![])
    };
    assert!(!empty_path.is_well_formed());
    let enc = b"de".to_vec();
    let r = TorrentMetainfo::parse(&source_with(&enc), String::from("u"), neither, enc);
    assert!(matches!(r, Err(TorrentError::MalformedMetainfo)));
}

#[test]
fn unfaithful_encoding_is_refused() {
    let enc = b"d6:lengthi5e4:name1:a12:piece lengthi16e6:pieces0:e".to_vec();
    let src = b"d4:infod6:lengthi5e4:name1:a7:privatei1e12:piece lengthi16e6:pieces0:ee".to_vec();
    assert!(!info_encoding_is_faithful(&src, &enc));
    let r = TorrentMetainfo::parse(&src, String::from("u"), single_file_info(vec![]), enc);
    assert!(matches!(r, Err(TorrentError::MalformedMetainfo)));
}

#[test]
fn faithful_encoding_search() {
    assert!(info_encoding_is_faithful(b"4:infox", b"x"));
    assert!(info_encoding_is_faithful(b"zz4:info", b""));
    assert!(!info_encoding_is_faithful(b"4:inf", b""));
    assert!(!info_encoding_is_faithful(b"x", b"xyz"));
    assert!(!info_encoding_is_faithful(b"4:infoy", b"x"));
}
