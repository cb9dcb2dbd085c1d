//! Capabilities that the structures of this crate compose.

pub mod flat_mappable;
pub mod foldable;
pub mod verifiable;
