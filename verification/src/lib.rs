//! The core of a proof-of-work mining client: a search for the nonce of
//! highest difficulty, shared out among workers, and the assembly of the
//! instructions that submit what the search found.

pub mod engine;
pub mod hash;
pub mod instruction;
pub mod nonce;
pub mod round;
pub mod solution;
pub mod worker;
