//! A software-rendered pixel surface for browser-hosted canvases.
//!
//! The caller writes packed `0RGB` pixels into an in-memory buffer and then
//! presents some or all of it onto a visible drawing surface. This crate holds
//! the verified core: buffer ownership, resize, staleness tracking, and the
//! damage-aware present algorithm that turns the pixel buffer into the RGBA
//! bytes and dirty rectangles the host paint interface consumes. Locating the
//! canvas and issuing the actual paint calls is the embedder's job.

pub mod error;
pub mod laws;
pub mod pixel;
pub mod rect;
pub mod web;
