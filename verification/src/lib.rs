//! An append-only, authority-controlled Merkle commitment to an off-chain
//! content set, with proof verification of membership against the committed
//! root.

pub mod errors;
pub mod events;
pub mod hashing;
pub mod instructions;
pub mod laws;
pub mod merkle;
pub mod state;
