//! Building blocks for evolutionary computation: features, genes, chromosomes
//! and individuals, together with the capabilities they share.

pub mod domain;
pub mod genetics;
pub mod individual;
pub mod mixins;
pub mod repr;
