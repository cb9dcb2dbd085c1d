//! Genes and chromosomes.

pub mod chromosome;
pub mod gene;
