//! Authenticated JSON-RPC requests: requests are signed with an Ed25519 key,
//! carry a timestamp, and are checked by the receiving side, which learns the
//! libp2p-style peer id of the signer.

pub mod crypto;
pub mod error;
pub mod rpc;
pub mod auth;
pub mod middleware;
