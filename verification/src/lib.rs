//! A timeshare registry for hotel rooms: hotels register and are activated,
//! active hotels mint timeshares for their rooms, and owners price, transfer
//! and sell them. Every operation is verified against a model of the
//! registry's storage.
pub mod scale;
pub mod hashing;
pub mod storage;
pub mod types;
pub mod model;
pub mod laws;
pub mod pallet;
pub mod genesis;
pub mod chain;

pub use crate::chain::MemoryChain;
pub use crate::genesis::GenesisConfig;
pub use crate::hashing::gen_dna;
pub use crate::pallet::{Config, Pallet};
pub use crate::types::{
    AccountId, Balance, BlockNumber, DispatchError, Error, Event, ExistenceRequirement, H256,
    HotelStatus, Origin, Room, Timeshare,
};
