//! A two-party token-swap escrow.
//!
//! An initializer deposits an offered amount of one asset into a custody
//! holding controlled by a program-derived address; a designated taker may
//! settle the swap atomically, or the initializer may cancel and take the
//! deposit back. Each operation validates its accounts before it changes
//! anything, and on any error leaves every account as it was.

pub mod address;
pub mod state;
pub mod accounts;
pub mod instructions;
pub mod laws;
