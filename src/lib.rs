//! A registry of decentralized identity records: one record per owner, stored
//! at an address derived from the owner's key, created once, updated and
//! deleted only by its owner.

pub mod account;
pub mod address;
pub mod error;
pub mod key;
pub mod registry;
pub mod laws;

pub use account::DidAccount;
pub use address::derive_did_address;
pub use error::ErrorCode;
pub use key::Key;
pub use registry::{create_did, delete_did, update_did, CreateDid, DeleteDid, Registry, UpdateDid};
