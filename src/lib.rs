//! Build pipeline for quardles: bootable archives that bundle a kernel, an
//! initramfs, the in-guest runtime binary and a manifest.
//!
//! The library decides; the caller acts. It derives the staging layout from
//! an artifact name, renders the manifest, plans which construction steps a
//! build still has to run given what the staging directory already holds,
//! and decides whether an archive still has to be unpacked.

mod strings;

pub mod layout;
pub mod manifest;
pub mod quardle;
pub mod pipeline;
pub mod unpack;
pub mod cli;
pub mod config;
