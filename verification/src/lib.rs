//! Core of a single-window image viewer: the decode pipeline that turns a
//! file's bytes into a displayable pixel payload, and the per-frame view
//! controller that dispatches decode requests and applies their results.

pub mod decode;
pub mod text;
pub mod viewer;
