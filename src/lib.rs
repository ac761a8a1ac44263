//! Frame-timing instrument and strip-chart builder for an on-screen
//! performance overlay, with the index lists of a few simple shapes.

pub mod clock;
pub mod watch;
pub mod graph;
pub mod monitor;
pub mod shapes;
