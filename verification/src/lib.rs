//! Poseidon sponge hashing over the BN254 scalar field, natively and inside
//! an R1CS constraint system.

pub mod circuit;
pub mod config;
pub mod field;
pub mod hash;
pub mod r1cs;
pub mod sponge;

pub use circuit::PoseidonCircuit;
