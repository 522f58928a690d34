//! An authenticated attendance engine.
//!
//! The library verifies a keyed authentication tag over a canonical encoding
//! of a mark request, and derives a member's consecutive-presence streak from
//! the previous day's attendance. Storage and transport stay outside; the
//! engine works on plain snapshots of the rows it reads and returns the rows
//! to write back.

pub mod auth;
pub mod clock;
pub mod codec;
pub mod date;
pub mod engine;
pub mod records;
