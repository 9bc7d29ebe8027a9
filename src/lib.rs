//! A virtual-pet economy over a token ledger: pets whose status decays with
//! block time, accounts with apples, money and a stake that earns simple
//! interest, and feeding decided by a hash-derived draw.
pub mod clock;
pub mod contract;
pub mod ids;
pub mod laws;
pub mod pet;
pub mod random;
pub mod staking;
pub mod status;
pub mod table;
pub mod wallet;
