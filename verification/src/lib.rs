//! Verified logic of ansync: pairing, wire codecs, file transfer, audio and
//! video plumbing, and the decisions of the daemon and the companion.

pub mod audio;
pub mod bt_hid;
pub mod bus;
pub mod bytes_le;
pub mod camera;
pub mod clipboard;
pub mod companion;
pub mod conn_state;
pub mod core_types;
pub mod ctl;
pub mod daemon;
pub mod digest;
pub mod discovery;
pub mod files;
pub mod fs_cache;
pub mod fs_client;
pub mod fs_path;
pub mod hex_text;
pub mod identity;
pub mod input;
pub mod known_peers;
pub mod kotlin;
pub mod mirror;
pub mod mount;
pub mod noise;
pub mod opus;
pub mod pair_pin;
pub mod pair_session;
pub mod pairing;
pub mod pcm;
pub mod peer;
pub mod progress;
pub mod registry;
pub mod routes;
pub mod shares;
pub mod text;
pub mod uinput;
pub mod video;
pub mod wire;

