//! A verified system-summary report library.
//!
//! The library turns one snapshot of host metrics (identity, OS and kernel
//! names, uptime, disks, temperature sensors, network interfaces) into a
//! block of display lines laid out beside a fixed ASCII logo panel. The
//! platform queries themselves are left to the caller; the library holds the
//! report model and the verified formatting and layout rules.

pub mod duration;
pub mod model;
pub mod render;
pub mod text;
