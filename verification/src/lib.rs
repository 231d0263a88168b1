//! A 9x9 grid of harmonic nodes: each node carries a fixed classification
//! derived from its linear index, a global magnetic field is applied to all
//! nodes through a per-class multiplier table, and an alignment vector is
//! aggregated over the primary-harmonic class.
//!
//! All real-valued quantities are carried in fixed point so that every
//! computation is exact integer arithmetic with a proved contract.

pub mod trig;
pub mod grid;
