//! Batch conversion of JPEG and PNG images to lossy WebP at a normalized size: the
//! part that decides and computes, without the file system.
//!
//! * [`paths`] says which files are sources and where the converted file of each goes.
//! * [`config`] holds the settings of a run.
//! * [`buffer`] is the decoded raster that the stages hand on.
//! * [`geometry`] and [`alpha`] are the two policies that transform a raster.
//! * [`codec`] decodes source bytes and encodes WebP bytes.
//! * [`worker`] takes one file through all of it, as a state machine that is told
//!   what the file system holds and asks for what it needs.
//! * [`trusted`] holds the calls into the `image` and `webp` crates; what their
//!   contracts say is believed, everything else is proved.

pub mod alpha;
pub mod buffer;
pub mod codec;
pub mod config;
pub mod error;
pub mod geometry;
pub mod paths;
pub mod trusted;
pub mod worker;
