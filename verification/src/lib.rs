//! A client binding for the JSON-RPC interface of a Solana node.
//!
//! The crate builds the request of every node method, numbers the requests of
//! one client, and reads the node's answer: it never touches the network. A
//! caller takes a [`Request`] from a method of [`SolanaRpcClient`], posts
//! [`Request::to_json`] to the client's endpoint, and hands what came back to
//! [`conclude`], which gives the result of the call or the reason why there is
//! none.

use vstd::prelude::*;

pub mod codec;
pub mod client;
pub mod json;
pub mod message;
pub mod methods;
pub mod params;

pub use crate::client::SolanaRpcClient;
pub use crate::codec::{conclude, decode, decode_body, encode, ClientError, Request, RpcError};

verus! {

/// The public endpoint of the production cluster.
pub const MAINNET_BETA: &'static str = "https://api.mainnet-beta.solana.com";

/// The public endpoint of the development cluster.
pub const DEVNET: &'static str = "https://api.devnet.solana.com";

/// The public endpoint of the test cluster.
pub const TESTNET: &'static str = "https://api.testnet.solana.com";

} // verus!
