//! An owner-gated boolean toggle: a stored flag that only the account which
//! created it may invert.

pub mod account;
pub mod flipper;
pub mod laws;

pub use account::AccountId;
pub use flipper::{Error, Flipper, FlipperView};
