//! Verified core of the SwiftChain identity and dispute contracts: the
//! registry of user profiles behind the identity/reputation contract, and the
//! delivery and escrow record stores that the dispute flow reads and updates.
pub mod types;
pub mod identity;
pub mod delivery;
pub mod escrow;
pub mod laws;
