//! The core of a simulated ("headless") spatial-computing device: coordinate
//! space tags, the event buffer, the input registry with its select gesture
//! machine, the hit-test registry, the device state driven by control
//! commands, and session discovery.

pub mod space;
pub mod events;
pub mod input;
pub mod device;
pub mod frame;
pub mod session;
pub mod discovery;
