//! Passive-capture pipeline for a framed, zstd-compressed, varint-encoded
//! game wire protocol: TCP stream reassembly, application-frame extraction,
//! recursive frame unwrapping, and decoding of frames into combat events.
pub mod combat;
pub mod detector;
pub mod device;
pub mod endpoint;
pub mod events;
pub mod extract;
pub mod frames;
pub mod messages;
pub mod mobs;
pub mod modules;
pub mod player;
pub mod protocol;
pub mod reassembly;
pub mod regions;
pub mod settings;
pub mod text;
pub mod varint;
