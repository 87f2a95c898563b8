//! The proxy-side job negotiator: one inbound message in, at most one
//! outbound message out, as a function of the session state.
use vstd::prelude::*;

use crate::messages::{
    copy_vec, is_sent_by_this_role, request_id_of, AllocateMiningJobTokenSuccess,
    CommitMiningJob, CommitMiningJobError, CommitMiningJobSuccess, IdentifyTransactions,
    IdentifyTransactionsSuccess, JobNegotiation, ProvideMissingTransactions,
    ProvideMissingTransactionsSuccess, Template, Transaction,
};
use crate::NEGOTIATION_VERSION;

verus! {

/// The block-propagation fields of a commit. Until short-hash negotiation
/// takes place they hold the "not yet negotiated" values; the short id at
/// position i of `tx_short_hash_list` refers to `transactions[i]`.
#[derive(Debug)]
pub struct PropagationData {
    pub min_extranonce_size: u16,
    pub tx_short_hash_nonce: u64,
    pub tx_short_hash_list: Vec<[u8; 6]>,
    pub tx_hash_list_hash: [u8; 32],
    pub excess_data: Vec<u8>,
    pub transactions: Vec<Transaction>,
}

/// What the proxy sends back for one inbound message.
#[derive(Debug)]
pub enum SendTo {
    Respond(JobNegotiation),
    NoResponse,
}

#[derive(Debug)]
pub enum Error {
    /// A message that only this role sends was received.
    UnexpectedMessage(JobNegotiation),
    /// The pool refused the committed job; the round is over and the caller
    /// decides whether to start another one.
    PoolRejection(CommitMiningJobError),
    /// The pool asked for a transaction position the committed job lacks.
    UnknownTransactionIndex { request_id: u32, position: u16 },
}

#[derive(Debug)]
pub struct JobNegotiator {
    pub last_new_template: Option<Template>,
    pub propagation: PropagationData,
    /// The transactions of the last job committed, in short-hash-list order.
    pub committed_transactions: Vec<Transaction>,
}

pub open spec fn zero_hash() -> Seq<u8> {
    Seq::new(32, |i: int| 0u8)
}

impl PropagationData {
    /// Every short id has the transaction it stands for.
    pub open spec fn wf(&self) -> bool {
        self.tx_short_hash_list@.len() == self.transactions@.len()
    }

    pub open spec fn is_unnegotiated(&self) -> bool {
        &&& self.min_extranonce_size == 0
        &&& self.tx_short_hash_nonce == 0
        &&& self.tx_short_hash_list@.len() == 0
        &&& self.tx_hash_list_hash@ == zero_hash()
        &&& self.excess_data@.len() == 0
        &&& self.transactions@.len() == 0
    }

    /// The placeholder values sent before short-hash negotiation exists.
    pub fn not_negotiated() -> (r: PropagationData)
        ensures
            r.is_unnegotiated(),
    {
        let r = PropagationData {
            min_extranonce_size: 0,
            tx_short_hash_nonce: 0,
            tx_short_hash_list: Vec::new(),
            tx_hash_list_hash: [0u8; 32],
            excess_data: Vec::new(),
            transactions: Vec::new(),
        };
        assert(r.tx_hash_list_hash@ =~= zero_hash());
        r
    }
}

/// Two transaction lists hold the same hashes and bodies, position by position.
pub open spec fn same_transactions(a: Seq<Transaction>, b: Seq<Transaction>) -> bool {
    &&& a.len() == b.len()
    &&& forall|i: int| 0 <= i < a.len() ==> #[trigger] a[i].hash == b[i].hash && a[i].body@ == b[i].body@
}

/// The six coinbase fields of `j` are those of `t`, unchanged.
pub open spec fn coinbase_projected(j: CommitMiningJob, t: Template) -> bool {
    &&& j.coinbase_tx_version == t.coinbase_tx_version
    &&& j.coinbase_prefix@ == t.coinbase_prefix@
    &&& j.coinbase_tx_input_n_sequence == t.coinbase_tx_input_sequence
    &&& j.coinbase_tx_value_remaining == t.coinbase_tx_value_remaining
    &&& j.coinbase_tx_outputs@ == t.coinbase_tx_outputs@
    &&& j.coinbase_tx_locktime == t.coinbase_tx_locktime
}

/// `j` is the commit for token grant `m`, template `t` and propagation data `p`.
pub open spec fn commit_built(
    j: CommitMiningJob,
    m: AllocateMiningJobTokenSuccess,
    t: Template,
    p: PropagationData,
) -> bool {
    &&& j.request_id == m.request_id
    &&& j.mining_job_token@ == m.mining_job_token@
    &&& j.version == NEGOTIATION_VERSION
    &&& coinbase_projected(j, t)
    &&& j.min_extranonce_size == p.min_extranonce_size
    &&& j.tx_short_hash_nonce == p.tx_short_hash_nonce
    &&& j.tx_short_hash_list@ == p.tx_short_hash_list@
    &&& j.tx_hash_list_hash == p.tx_hash_list_hash
    &&& j.excess_data@ == p.excess_data@
}

/// Handling a token grant: commit a job built from the current template and
/// remember its transactions.
pub open spec fn commit_outcome(
    s: JobNegotiator,
    m: AllocateMiningJobTokenSuccess,
    r: Result<SendTo, Error>,
    s2: JobNegotiator,
) -> bool {
    &&& match r {
        Ok(SendTo::Respond(JobNegotiation::CommitMiningJob(j))) => commit_built(
            j,
            m,
            s.last_new_template->Some_0,
            s.propagation,
        ),
        _ => false,
    }
    &&& s2.last_new_template == s.last_new_template
    &&& s2.propagation == s.propagation
    &&& same_transactions(s2.committed_transactions@, s.propagation.transactions@)
}

/// Handling a pool rejection: report it and forget the committed job.
pub open spec fn rejection_outcome(
    s: JobNegotiator,
    m: CommitMiningJobError,
    r: Result<SendTo, Error>,
    s2: JobNegotiator,
) -> bool {
    &&& r == Err::<SendTo, Error>(Error::PoolRejection(m))
    &&& s2.last_new_template == s.last_new_template
    &&& s2.propagation == s.propagation
    &&& s2.committed_transactions@.len() == 0
}

/// Handling a transaction identification request: the hashes of the
/// committed job's transactions, in order.
pub open spec fn identify_outcome(
    s: JobNegotiator,
    m: IdentifyTransactions,
    r: Result<SendTo, Error>,
) -> bool {
    match r {
        Ok(SendTo::Respond(JobNegotiation::IdentifyTransactionsSuccess(x))) => {
            &&& x.request_id == m.request_id
            &&& x.tx_hash_list@ == s.committed_transactions@.map_values(|t: Transaction| t.hash)
        },
        _ => false,
    }
}

/// Whether `m` names a position outside the committed job.
pub open spec fn has_unknown_position(s: JobNegotiator, m: ProvideMissingTransactions) -> bool {
    exists|i: int|
        0 <= i < m.unknown_tx_position_list@.len()
            && #[trigger] m.unknown_tx_position_list@[i] >= s.committed_transactions@.len()
}

/// Position `k` of `pos` is the first that is not below `n`.
pub open spec fn first_unknown_at(pos: Seq<u16>, n: nat, k: int) -> bool {
    &&& 0 <= k < pos.len()
    &&& pos[k] >= n
    &&& forall|j: int| 0 <= j < k ==> #[trigger] pos[j] < n
}

/// Handling a request for missing transactions: the bodies at the requested
/// positions, in the order requested, or the first position that is unknown.
pub open spec fn provide_outcome(
    s: JobNegotiator,
    m: ProvideMissingTransactions,
    r: Result<SendTo, Error>,
) -> bool {
    let txs = s.committed_transactions@;
    let pos = m.unknown_tx_position_list@;
    match r {
        Ok(SendTo::Respond(JobNegotiation::ProvideMissingTransactionsSuccess(x))) => {
            &&& !has_unknown_position(s, m)
            &&& x.request_id == m.request_id
            &&& x.transaction_list@.len() == pos.len()
            &&& forall|i: int|
                0 <= i < pos.len() ==> (#[trigger] x.transaction_list@[i])@ == txs[pos[i] as int].body@
        },
        Err(Error::UnknownTransactionIndex { request_id, position }) => {
            &&& request_id == m.request_id
            &&& exists|k: int| #[trigger] first_unknown_at(pos, txs.len(), k) && pos[k] == position
        },
        _ => false,
    }
}

/// What handling one classified message yields and leaves behind.
pub open spec fn handle_outcome(
    s: JobNegotiator,
    msg: JobNegotiation,
    r: Result<SendTo, Error>,
    s2: JobNegotiator,
) -> bool {
    match msg {
        JobNegotiation::AllocateMiningJobTokenSuccess(m) => commit_outcome(s, m, r, s2),
        JobNegotiation::CommitMiningJobSuccess(_) => r == Ok::<SendTo, Error>(SendTo::NoResponse)
            && s2 == s,
        JobNegotiation::CommitMiningJobError(m) => rejection_outcome(s, m, r, s2),
        JobNegotiation::IdentifyTransactions(m) => identify_outcome(s, m, r) && s2 == s,
        JobNegotiation::ProvideMissingTransactions(m) => provide_outcome(s, m, r) && s2 == s,
        _ => r == Err::<SendTo, Error>(Error::UnexpectedMessage(msg)) && s2 == s,
    }
}

/// Whether handling `msg` in state `s` is within the negotiator's contract:
/// a token grant needs a template to build the commit from.
pub open spec fn can_handle(s: JobNegotiator, msg: JobNegotiation) -> bool {
    msg is AllocateMiningJobTokenSuccess ==> s.last_new_template is Some
}

/// A deep copy of a list of transactions.
fn copy_transactions(v: &Vec<Transaction>) -> (r: Vec<Transaction>)
    ensures
        same_transactions(r@, v@),
{
    let mut r: Vec<Transaction> = Vec::new();
    let mut i: usize = 0;
    while i < v.len()
        invariant
            i <= v@.len(),
            r@.len() == i,
            forall|k: int| 0 <= k < i ==> #[trigger] r@[k].hash == v@[k].hash && r@[k].body@ == v@[k].body@,
        decreases v@.len() - i,
    {
        let t = Transaction { hash: v[i].hash, body: copy_vec(&v[i].body) };
        r.push(t);
        i = i + 1;
    }
    r
}

impl JobNegotiator {
    /// A session with no template yet and nothing committed.
    pub fn new() -> (r: JobNegotiator)
        ensures
            r.last_new_template is None,
            r.propagation.is_unnegotiated(),
            r.committed_transactions@.len() == 0,
    {
        JobNegotiator {
            last_new_template: None,
            propagation: PropagationData::not_negotiated(),
            committed_transactions: Vec::new(),
        }
    }

    /// Whether `message` may be handled now: a token grant needs a template.
    pub fn can_handle_message(&self, message: &JobNegotiation) -> (r: bool)
        ensures
            r == can_handle(*self, *message),
    {
        match message {
            JobNegotiation::AllocateMiningJobTokenSuccess(_) => self.last_new_template.is_some(),
            _ => true,
        }
    }

    /// Replaces the latest known template with `t`, as one swap.
    pub fn set_template(&mut self, t: Template)
        ensures
            final(self).last_new_template == Some(t),
            final(self).propagation == old(self).propagation,
            final(self).committed_transactions == old(self).committed_transactions,
    {
        self.last_new_template = Some(t);
    }

    /// Answers a token grant with the commit of a job built from the latest
    /// template.
    pub fn allocate_mining_job_token_success(
        &mut self,
        message: AllocateMiningJobTokenSuccess,
    ) -> (r: Result<SendTo, Error>)
        requires
            old(self).last_new_template is Some,
        ensures
            commit_outcome(*old(self), message, r, *final(self)),
    {
        let t = self.last_new_template.as_ref().unwrap();
        let p = &self.propagation;
        let job = CommitMiningJob {
            request_id: message.request_id,
            mining_job_token: message.mining_job_token,
            version: NEGOTIATION_VERSION,
            coinbase_tx_version: t.coinbase_tx_version,
            coinbase_prefix: copy_vec(&t.coinbase_prefix),
            coinbase_tx_input_n_sequence: t.coinbase_tx_input_sequence,
            coinbase_tx_value_remaining: t.coinbase_tx_value_remaining,
            coinbase_tx_outputs: copy_vec(&t.coinbase_tx_outputs),
            coinbase_tx_locktime: t.coinbase_tx_locktime,
            min_extranonce_size: p.min_extranonce_size,
            tx_short_hash_nonce: p.tx_short_hash_nonce,
            tx_short_hash_list: copy_vec(&p.tx_short_hash_list),
            tx_hash_list_hash: p.tx_hash_list_hash,
            excess_data: copy_vec(&p.excess_data),
        };
        self.committed_transactions = copy_transactions(&p.transactions);
        Ok(SendTo::Respond(JobNegotiation::CommitMiningJob(job)))
    }

    /// The pool accepted the job: the round is over and nothing is sent.
    pub fn commit_mining_job_success(&mut self, _message: CommitMiningJobSuccess) -> (r: Result<
        SendTo,
        Error,
    >)
        ensures
            r == Ok::<SendTo, Error>(SendTo::NoResponse),
            *final(self) == *old(self),
    {
        Ok(SendTo::NoResponse)
    }

    /// The pool refused the job: the rejection goes to the caller, which
    /// decides whether to start a new round, and the committed job is dropped.
    pub fn commit_mining_job_error(&mut self, message: CommitMiningJobError) -> (r: Result<
        SendTo,
        Error,
    >)
        ensures
            rejection_outcome(*old(self), message, r, *final(self)),
    {
        self.committed_transactions = Vec::new();
        Err(Error::PoolRejection(message))
    }

    /// Answers with the hashes of the committed job's transactions.
    pub fn identify_transactions(&mut self, message: IdentifyTransactions) -> (r: Result<
        SendTo,
        Error,
    >)
        ensures
            identify_outcome(*old(self), message, r),
            *final(self) == *old(self),
    {
        let txs = &self.committed_transactions;
        let mut hashes: Vec<[u8; 32]> = Vec::new();
        let mut i: usize = 0;
        while i < txs.len()
            invariant
                i <= txs@.len(),
                hashes@ =~= txs@.subrange(0, i as int).map_values(|t: Transaction| t.hash),
            decreases txs@.len() - i,
        {
            hashes.push(txs[i].hash);
            i = i + 1;
        }
        assert(txs@.subrange(0, txs@.len() as int) =~= txs@);
        let success = IdentifyTransactionsSuccess { request_id: message.request_id, tx_hash_list: hashes };
        Ok(SendTo::Respond(JobNegotiation::IdentifyTransactionsSuccess(success)))
    }

    /// Answers with the bodies of the requested transactions, in the order
    /// requested; a position past the committed job is an error.
    pub fn provide_missing_transactions(
        &mut self,
        message: ProvideMissingTransactions,
    ) -> (r: Result<SendTo, Error>)
        ensures
            provide_outcome(*old(self), message, r),
            *final(self) == *old(self),
    {
        let txs = &self.committed_transactions;
        let pos = &message.unknown_tx_position_list;
        let mut bodies: Vec<Vec<u8>> = Vec::new();
        let mut i: usize = 0;
        while i < pos.len()
            invariant
                pos@ == message.unknown_tx_position_list@,
                txs@ == self.committed_transactions@,
                i <= pos@.len(),
                bodies@.len() == i,
                forall|j: int| 0 <= j < i ==> #[trigger] pos@[j] < txs@.len(),
                forall|j: int| 0 <= j < i ==> (#[trigger] bodies@[j])@ == txs@[pos@[j] as int].body@,
            decreases pos@.len() - i,
        {
            let index = pos[i];
            if index as usize >= txs.len() {
                assert(first_unknown_at(pos@, txs@.len(), i as int));
                let r = Err(Error::UnknownTransactionIndex { request_id: message.request_id, position: index });
                assert(first_unknown_at(message.unknown_tx_position_list@, self.committed_transactions@.len(), i as int));
                assert(message.unknown_tx_position_list@[i as int] == index);
                assert(provide_outcome(*self, message, r));
                return r;
            }
            bodies.push(copy_vec(&txs[index as usize].body));
            i = i + 1;
        }
        let success = ProvideMissingTransactionsSuccess {
            request_id: message.request_id,
            transaction_list: bodies,
        };
        Ok(SendTo::Respond(JobNegotiation::ProvideMissingTransactionsSuccess(success)))
    }

    /// Handles one classified inbound message against the session.
    pub fn handle_message_job_negotiation(&mut self, message: JobNegotiation) -> (r: Result<
        SendTo,
        Error,
    >)
        requires
            can_handle(*old(self), message),
        ensures
            handle_outcome(*old(self), message, r, *final(self)),
    {
        match message {
            JobNegotiation::AllocateMiningJobTokenSuccess(m) => self.allocate_mining_job_token_success(m),
            JobNegotiation::CommitMiningJobSuccess(m) => self.commit_mining_job_success(m),
            JobNegotiation::CommitMiningJobError(m) => self.commit_mining_job_error(m),
            JobNegotiation::IdentifyTransactions(m) => self.identify_transactions(m),
            JobNegotiation::ProvideMissingTransactions(m) => self.provide_missing_transactions(m),
            other => Err(Error::UnexpectedMessage(other)),
        }
    }
}

} // verus!
