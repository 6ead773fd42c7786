//! Handlers for untyped ("stargate") messages and queries of a contract
//! execution simulator, with the contract store they read.
pub mod proto;
pub mod store;
pub mod text;
pub mod stargate;
pub mod laws;
pub mod messages;

pub use messages::{CustomHelperMsg, EmptyMsg};
pub use stargate::{
    AppResponse, Stargate, StargateAccepting, StargateCodeHash, StargateError, StargateFailing,
};
pub use store::{ContractData, ContractStore};
