//! Plain-value forms of the job-negotiation messages and of the block
//! template they are built from. Wire encoding is left to the codec.
use vstd::prelude::*;

verus! {

/// The coinbase shape of the most recent block template.
#[derive(Debug)]
pub struct Template {
    pub coinbase_tx_version: u32,
    pub coinbase_prefix: Vec<u8>,
    pub coinbase_tx_input_sequence: u32,
    pub coinbase_tx_value_remaining: u64,
    pub coinbase_tx_outputs: Vec<u8>,
    pub coinbase_tx_locktime: u32,
}

/// A transaction of a committed job: its full hash and its serialized body.
#[derive(Debug)]
pub struct Transaction {
    pub hash: [u8; 32],
    pub body: Vec<u8>,
}

#[derive(Debug)]
pub struct AllocateMiningJobToken {
    pub request_id: u32,
    pub user_identifier: Vec<u8>,
}

#[derive(Debug)]
pub struct AllocateMiningJobTokenSuccess {
    pub request_id: u32,
    pub mining_job_token: Vec<u8>,
    pub coinbase_output_max_additional_size: u32,
}

#[derive(Debug)]
pub struct CommitMiningJob {
    pub request_id: u32,
    pub mining_job_token: Vec<u8>,
    pub version: u32,
    pub coinbase_tx_version: u32,
    pub coinbase_prefix: Vec<u8>,
    pub coinbase_tx_input_n_sequence: u32,
    pub coinbase_tx_value_remaining: u64,
    pub coinbase_tx_outputs: Vec<u8>,
    pub coinbase_tx_locktime: u32,
    pub min_extranonce_size: u16,
    pub tx_short_hash_nonce: u64,
    pub tx_short_hash_list: Vec<[u8; 6]>,
    pub tx_hash_list_hash: [u8; 32],
    pub excess_data: Vec<u8>,
}

#[derive(Debug)]
pub struct CommitMiningJobSuccess {
    pub request_id: u32,
    pub new_mining_job_token: Vec<u8>,
}

#[derive(Debug)]
pub struct CommitMiningJobError {
    pub request_id: u32,
    pub error_code: Vec<u8>,
    pub error_details: Vec<u8>,
}

#[derive(Debug)]
pub struct IdentifyTransactions {
    pub request_id: u32,
}

#[derive(Debug)]
pub struct IdentifyTransactionsSuccess {
    pub request_id: u32,
    pub tx_hash_list: Vec<[u8; 32]>,
}

#[derive(Debug)]
pub struct ProvideMissingTransactions {
    pub request_id: u32,
    pub unknown_tx_position_list: Vec<u16>,
}

#[derive(Debug)]
pub struct ProvideMissingTransactionsSuccess {
    pub request_id: u32,
    pub transaction_list: Vec<Vec<u8>>,
}

/// One classified job-negotiation message.
#[derive(Debug)]
pub enum JobNegotiation {
    AllocateMiningJobToken(AllocateMiningJobToken),
    AllocateMiningJobTokenSuccess(AllocateMiningJobTokenSuccess),
    CommitMiningJob(CommitMiningJob),
    CommitMiningJobSuccess(CommitMiningJobSuccess),
    CommitMiningJobError(CommitMiningJobError),
    IdentifyTransactions(IdentifyTransactions),
    IdentifyTransactionsSuccess(IdentifyTransactionsSuccess),
    ProvideMissingTransactions(ProvideMissingTransactions),
    ProvideMissingTransactionsSuccess(ProvideMissingTransactionsSuccess),
}

/// The messages that the proxy side itself sends; receiving one is illegal.
pub open spec fn is_sent_by_this_role(m: JobNegotiation) -> bool {
    ||| m is AllocateMiningJobToken
    ||| m is CommitMiningJob
    ||| m is IdentifyTransactionsSuccess
    ||| m is ProvideMissingTransactionsSuccess
}

/// The correlation id that every message carries.
pub open spec fn request_id_of(m: JobNegotiation) -> u32 {
    match m {
        JobNegotiation::AllocateMiningJobToken(x) => x.request_id,
        JobNegotiation::AllocateMiningJobTokenSuccess(x) => x.request_id,
        JobNegotiation::CommitMiningJob(x) => x.request_id,
        JobNegotiation::CommitMiningJobSuccess(x) => x.request_id,
        JobNegotiation::CommitMiningJobError(x) => x.request_id,
        JobNegotiation::IdentifyTransactions(x) => x.request_id,
        JobNegotiation::IdentifyTransactionsSuccess(x) => x.request_id,
        JobNegotiation::ProvideMissingTransactions(x) => x.request_id,
        JobNegotiation::ProvideMissingTransactionsSuccess(x) => x.request_id,
    }
}

impl JobNegotiation {
    /// Whether this message is one that the proxy side sends, never receives.
    pub fn sent_by_this_role(&self) -> (r: bool)
        ensures
            r == is_sent_by_this_role(*self),
    {
        match self {
            JobNegotiation::AllocateMiningJobToken(_) => true,
            JobNegotiation::CommitMiningJob(_) => true,
            JobNegotiation::IdentifyTransactionsSuccess(_) => true,
            JobNegotiation::ProvideMissingTransactionsSuccess(_) => true,
            _ => false,
        }
    }

    pub fn request_id(&self) -> (r: u32)
        ensures
            r == request_id_of(*self),
    {
        match self {
            JobNegotiation::AllocateMiningJobToken(x) => x.request_id,
            JobNegotiation::AllocateMiningJobTokenSuccess(x) => x.request_id,
            JobNegotiation::CommitMiningJob(x) => x.request_id,
            JobNegotiation::CommitMiningJobSuccess(x) => x.request_id,
            JobNegotiation::CommitMiningJobError(x) => x.request_id,
            JobNegotiation::IdentifyTransactions(x) => x.request_id,
            JobNegotiation::IdentifyTransactionsSuccess(x) => x.request_id,
            JobNegotiation::ProvideMissingTransactions(x) => x.request_id,
            JobNegotiation::ProvideMissingTransactionsSuccess(x) => x.request_id,
        }
    }
}

/// Copies a vector of plain values element by element.
pub fn copy_vec<T: Copy>(v: &Vec<T>) -> (r: Vec<T>)
    ensures
        r@ == v@,
{
    let mut r: Vec<T> = Vec::new();
    let mut i: usize = 0;
    while i < v.len()
        invariant
            i <= v@.len(),
            r@ == v@.subrange(0, i as int),
        decreases v@.len() - i,
    {
        r.push(v[i]);
        i = i + 1;
    }
    assert(r@ =~= v@);
    r
}

} // verus!
