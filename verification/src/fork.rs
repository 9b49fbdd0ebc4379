//! Fork orchestration records: the execution environment captured at
//! tracer initialisation, the request handed to the external backend when a
//! fork is created or selected, and the transactions recorded during a
//! broadcast.

use vstd::prelude::*;

use crate::addrs::Addr;
use crate::words::Word;

verus! {

/// The environment the host initialises the tracer with, reduced to the
/// fields fork requests and broadcasts read.
#[derive(Clone, Copy, Debug)]
pub struct EraEnv {
    /// Number of the first block of the batch.
    pub first_l2_block_number: u32,
    /// Timestamp of the first block of the batch.
    pub first_l2_block_timestamp: u64,
    /// The fee collector account.
    pub fee_account: Addr,
    /// The batch gas limit.
    pub gas_limit: u32,
    /// The chain identifier.
    pub chain_id: u64,
    /// The batch base fee.
    pub base_fee: u64,
}

/// The block-environment fields a fresh fork is materialised under.
#[derive(Clone, Copy, Debug, PartialEq, Eq, Structural)]
pub struct BlockEnvView {
    /// Block number.
    pub number: u64,
    /// Fee collector.
    pub coinbase: Addr,
    /// Block timestamp.
    pub timestamp: u64,
    /// Gas limit.
    pub gas_limit: u64,
    /// Base fee.
    pub basefee: u64,
    /// Chain identifier.
    pub chain_id: u64,
}

/// The block environment the captured environment maps onto.
pub open spec fn block_env_of(env: EraEnv) -> BlockEnvView {
    BlockEnvView {
        number: env.first_l2_block_number as u64,
        coinbase: env.fee_account,
        timestamp: env.first_l2_block_timestamp,
        gas_limit: env.gas_limit as u64,
        basefee: env.base_fee,
        chain_id: env.chain_id,
    }
}

/// Maps the captured environment onto the block environment a fork starts
/// from.
pub fn into_block_env(env: &EraEnv) -> (r: BlockEnvView)
    ensures
        r == block_env_of(*env),
        r.number == env.first_l2_block_number,
        r.coinbase == env.fee_account,
        r.timestamp == env.first_l2_block_timestamp,
        r.gas_limit == env.gas_limit,
        r.basefee == env.base_fee,
        r.chain_id == env.chain_id,
{
    BlockEnvView {
        number: env.first_l2_block_number as u64,
        coinbase: env.fee_account,
        timestamp: env.first_l2_block_timestamp,
        gas_limit: env.gas_limit as u64,
        basefee: env.base_fee,
        chain_id: env.chain_id,
    }
}

/// What the external backend needs to create or select a fork.
#[derive(Debug)]
pub struct ForkRequest {
    /// The RPC URL or configured alias to fork from.
    pub url_or_alias: String,
    /// The block to fork at, or the latest when absent.
    pub block_number: Option<u64>,
    /// The block environment to materialise under.
    pub env: BlockEnvView,
}

/// Builds the backend request for creating or selecting a fork.
pub fn create_fork_request(env: &EraEnv, block_number: Option<u64>, url_or_alias: &String) -> (r:
    ForkRequest)
    ensures
        r.url_or_alias@ == url_or_alias@,
        r.block_number == block_number,
        r.env == block_env_of(*env),
        r.env.number == env.first_l2_block_number,
        r.env.coinbase == env.fee_account,
        r.env.timestamp == env.first_l2_block_timestamp,
        r.env.gas_limit == env.gas_limit,
        r.env.basefee == env.base_fee,
        r.env.chain_id == env.chain_id,
{
    ForkRequest { url_or_alias: url_or_alias.clone(), block_number, env: into_block_env(env) }
}

/// A transaction synthesised during a broadcast, to be sent externally
/// instead of executing against live state.
#[derive(Debug)]
pub struct BroadcastableTx {
    /// The RPC URL of the active fork, if any.
    pub rpc: Option<String>,
    /// The sending account.
    pub from: Addr,
    /// The destination account.
    pub to: Addr,
    /// The gas allowance, from the remaining ergs of the observed call.
    pub gas: u32,
    /// The transferred value, when routed through the value simulator.
    pub value: Option<Word>,
    /// The calldata.
    pub data: Vec<u8>,
    /// The sender's nonce at synthesis time.
    pub nonce: Word,
}

} // verus!
