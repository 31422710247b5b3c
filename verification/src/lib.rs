//! A minimal "reflector" contract: it stores an owner and a reflectee address,
//! and lets the owner change the reflectee, forward a batch of outgoing
//! messages verbatim, or dispatch a fixed increment call to the reflectee.
//! A read-only query reports the current pair of addresses.

pub mod addr;
pub mod contract;
pub mod error;
pub mod laws;
pub mod msg;
pub mod state;
pub mod types;

pub use error::ContractError;
