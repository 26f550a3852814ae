//! Client-side toolkit for installing and calling smart contracts on an L1X
//! node: transaction building and signing, address resolution from node
//! events, the contract address registry, and the install and call flows as
//! state machines that an I/O driver steps through.

pub mod account;
pub mod contract_install;
pub mod contract_sub_txn;
pub mod credentials;
pub mod error;
pub mod events;
pub mod hexcodec;
pub mod new;
pub mod pipeline;
pub mod signer;
pub mod strmap;
pub mod text;
pub mod toolkit_config;
pub mod transaction;
