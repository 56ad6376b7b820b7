//! Frame-accurate media timeline model and decode pipeline.
//!
//! The library models a small video project: exact rational time values,
//! frame numbers and half-open frame spans, a catalog of probed media files
//! held in a generation-checked arena, and the decode pipeline that turns
//! container packets into RGBA frames, expressed as an explicit state
//! machine whose decisions are verified. The blocking calls into the media
//! runtime (demuxing, decoding, pixel conversion) are performed by the
//! embedding program, which feeds their outcomes back as plain values.

pub mod decode;
pub mod framenum;
pub mod framespan;
pub mod media_project;
pub mod media_ref;
pub mod probe;
pub mod rational;
