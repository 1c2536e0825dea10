//! Runtime audio engine for an interactive application: resolves logical song
//! requests into concrete streamed or sequenced sources, mixes background
//! music with synthesized sound effects, and supports save/restore of
//! playback position.  Also holds the input-controller aggregation layer and
//! the network-play server address record.

pub mod combined;
pub mod components;
pub mod controller;
pub mod engine;
pub mod keys;
pub mod manager;
pub mod mixer;
pub mod ogg;
pub mod server_config;
pub mod songs;
