//! A verified core for a local photo and video library: batch ingestion of
//! media files into content-addressed storage, with checksum identity,
//! format-aware decoding, orientation normalization, bounded previews, and
//! all-or-nothing persistence of the resulting metadata.
//!
//! The surrounding program supplies what cannot be verified — file and
//! database handles, the worker pool, the container codec — as plain
//! values; every decision between them is made here, under contract.

pub mod batch;
pub mod codec;
pub mod ident;
pub mod media;
pub mod orient;
pub mod paths;
pub mod prepare;
pub mod registry;
pub mod rows;
pub mod text;
