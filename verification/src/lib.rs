//! Storage access layer for a removable, block-oriented memory card.
//!
//! The crate decides; it performs no device I/O of its own. Every operation
//! is split into the request that the driver has to carry out and the
//! conclusion drawn from the driver's reply, so that the handle lifecycle,
//! the sector and alignment discipline and the error taxonomy are stated and
//! proved independently of the hardware.

pub mod error;
pub mod fixed;
pub mod name;
pub mod sector;
pub mod driver;
pub mod card;
pub mod print;
pub mod time;
