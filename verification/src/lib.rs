//! Pointer stuffing: packing either a machine address or a small payload of
//! another type into one unsigned integer, and telling the two apart again.
//!
//! A [`StuffingStrategy`] says how the two are packed into a [`Backend`], the
//! integer type that stores them, and what a stored integer unpacks to: an
//! [`Unstuffed`] address or payload. The unit type `()` is the strategy that
//! tags nothing and reads every integer as an address. The strategies in
//! [`sentinel`] give up the backend's largest value as the one tag that means
//! "payload".

pub mod backend;
pub mod sentinel;
pub mod strategy;
pub mod unstuffed;

pub use backend::Backend;
pub use strategy::StuffingStrategy;
pub use unstuffed::Unstuffed;
