//! A library for extracting printable character sequences ("strings") from
//! arbitrary byte sources.
//!
//! The scan proceeds in stages: bytes are decoded into fixed-width code units
//! ([`decode`]), each unit is classified as printable or not ([`classify`]),
//! maximal printable runs of at least a configured minimum length are
//! collected by a two-state machine ([`scan`]), each run is rendered to text
//! under a display policy ([`render`]) and combined with its formatted offset
//! and optional file name into an emitted record ([`format`]). The whole
//! pipeline is exposed by [`extract`].

pub mod chars;
pub mod classify;
pub mod cli;
pub mod config;
pub mod decode;
pub mod extract;
pub mod format;
pub mod radix;
pub mod render;
pub mod scan;
