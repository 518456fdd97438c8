//! Rules for transcoding compressed texture containers.
//!
//! A container holds images, each with a chain of mip levels, in a compact
//! intermediate encoding. A codec turns one level at a time into a GPU
//! texture format. This crate holds everything around the codec that can be
//! stated and proved: the geometry of each output format, the bookkeeping of
//! a session bound to one container, the answers to queries about images and
//! levels, and the sizing of the output buffer that the codec writes into.
//! The codec itself is driven by the embedding program, which hands its
//! answers to the functions here.

pub mod error;
pub mod format;
pub mod layout;
pub mod transcoder;

pub use crate::error::BasisError;
pub use crate::format::OutputFormat;
pub use crate::layout::{ContainerLayout, ImageLevelInfo};
pub use crate::transcoder::{BasisFileTranscoder, BasisTranscoder, TranscodeRequest};
