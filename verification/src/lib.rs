//! Verified core of a grass renderer's per-frame resource preparation.
//!
//! Given the set of scene objects whose parameter records changed this
//! frame, the library decides what GPU memory must be (re)built, lays the
//! uniform blocks out with the platform's 16-byte alignment, packs
//! irregular position lists into minimal square textures, and keeps a
//! per-object cache of the built resources so unchanged objects are not
//! re-uploaded. The graphics backend itself is the host's business: the
//! device here is an in-memory model whose allocation counter makes
//! resource identity — and with it reuse versus rebuild — provable.

pub mod bundle;
pub mod cache;
pub mod config;
pub mod density_map;
pub mod draw;
pub mod gpu;
pub mod height_map;
pub mod layout;
pub mod packer;
pub mod prepare;
