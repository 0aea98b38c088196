//! The protocol and actor layer of a 2D canvas.
//!
//! A canvas is owned by one actor and reached by many callers, through
//! channels that admit one legal sequence of operations and no other. This
//! library holds the rules of that exchange as state machines: what a
//! channel allows ([`channel`]), what the actor does with each request
//! ([`actor`]), which operations a command asks of the surface
//! ([`surface`]), when a caller's commands are sent as a batch
//! ([`session`]), how new canvases come to be ([`factory`]) and how pixels
//! travel from one canvas to another ([`transfer`]). None of them blocks,
//! sleeps or sends: each takes what has happened and tells what to do
//! next, and whoever runs them owns the threads and the wires.

pub mod actor;
pub mod bytes;
pub mod caller;
pub mod canvas;
pub mod channel;
pub mod color;
pub mod factory;
pub mod geometry;
pub mod image;
pub mod message;
pub mod protocol;
pub mod raster;
pub mod scalar;
pub mod session;
pub mod style;
pub mod surface;
pub mod text;
pub mod transfer;
