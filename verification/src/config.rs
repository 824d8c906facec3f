//! The configuration of the service.

use vstd::prelude::*;

verus! {

/// The whole configuration.
#[derive(Debug)]
pub struct Config {
    pub grpc: GrpcConfig,
    pub solana: SolanaConfig,
}

/// Where the stream of updates is found.
#[derive(Debug)]
pub struct GrpcConfig {
    pub endpoint: String,
    pub api_key: String,
}

/// Where the node is found, and what to transfer.
#[derive(Debug)]
pub struct SolanaConfig {
    pub rpc_url: String,
    pub keypair_path: String,
    pub recipient_wallet: String,
    pub transfer_amount_lamports: u64,
}

} // verus!
