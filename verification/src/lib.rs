//! A row of keys of which exactly one is current at any time.
//!
//! [`KeyArray`] holds a non-empty ordered list of keys and the index of the
//! current one. Every operation either keeps that index inside the list or
//! reports a [`KeyArrayError`] and leaves the value as it was.

pub mod array;
pub mod error;
pub mod text;

pub use array::{KeyArray, KeyArrayView};
pub use error::KeyArrayError;
