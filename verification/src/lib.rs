//! Engine of a compositor repaint-loop visualizer: framing of the wire
//! protocol, translation of wire events into domain events, per-output and
//! per-surface identity bookkeeping, the windowed freeze policy that decides
//! which batch of events is displayed, and the time-to-pixel projection that
//! lays the aggregated shapes out on a canvas.

pub mod shape;
pub mod message;
pub mod decode;
pub mod timeline;
pub mod wire;
pub mod project;
