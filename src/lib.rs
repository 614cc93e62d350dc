//! Discovery and handshake core of a peer-to-peer file-transfer client: the metainfo
//! model and its content identifier, the tracker announce and compact peer lists, the
//! fixed-layout peer handshake, and the per-peer handshake state machine.

pub mod client;
pub mod p2p;
pub mod text;
pub mod torrent;
pub mod tracker;
pub mod watchlist;
