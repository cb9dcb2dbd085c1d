//! Features and the structures built from them.

pub mod feature;
pub mod representation;
