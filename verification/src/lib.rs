//! Event-translation engine for a grid-style hardware control surface.
//!
//! The library turns raw input frames from the controller into typed events
//! (button edges, encoder and slider levels, pad events), runs a per-control
//! mode state machine (momentary / latching with mutual-exclusion groups),
//! keeps an in-memory light snapshot with a dirty flag for batched flushing,
//! and routes inbound status datagrams to light and screen updates.
//! Device, port and socket I/O live outside the library; callers hand in
//! frames and datagram bytes and send out the encoded packets it returns.

pub mod buttons;
pub mod decoder;
pub mod engine;
pub mod ident;
pub mod lights;
pub mod midi;
pub mod osc;
pub mod pads;
pub mod router;
pub mod settings;
pub mod slider;
