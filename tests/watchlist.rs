use bittorrent::watchlist::{Anime, Config, Quality};
use std::str::FromStr;

#[test]
fn quality_parses_each_label() {
    assert_eq!(Quality::from_str("360p"), Ok(Quality::Res360));
    assert_eq!(Quality::from_str("480p"), Ok(Quality::Res480));
    assert_eq!(Quality::from_str("720p"), Ok(Quality::Res720));
    assert_eq!(Quality::from_str("1080p"), Ok(Quality::Res1080));
    assert_eq!(Quality::from_str("4k"), Ok(Quality::Res4k));
}

#[test]
fn quality_rejects_unknown_text() {
    assert_eq!(Quality::from_str("1080"), Err(()));
    assert_eq!(Quality::from_str("4K"), Err(()));
    assert_eq!(Quality::from_str(""), Err(()));
    assert_eq!(Quality::parse("360p "), Err(()));
}

#[test]
fn quality_label_round_trips() {
    for q in [Quality::Res360, Quality::Res480, Quality::Res720, Quality::Res1080, Quality::Res4k] {
        assert_eq!(Quality::parse(&q.label()), Ok(q));
    }
    assert_eq!(Quality::Res1080.label(), "1080p");
}

#[test]
fn watch_entry_and_config_hold_their_fields() {
    let a = Anime {
        title: String::from("Title"),
        quality: Quality::Res720,
        subgroup: String::from("Group"),
        last_seen_episode: -1,
        tombstone: false,
    };
    assert_eq!(a.quality.label(), "720p");
    let c = Config { download_path: String::from("/tmp") };
    assert_eq!(c.download_path, "/tmp");
}
