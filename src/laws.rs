//! Properties of message handling that relate the handlers to one another
//! and to the session state.
use vstd::prelude::*;

use crate::messages::{
    is_sent_by_this_role, request_id_of, AllocateMiningJobTokenSuccess, IdentifyTransactions,
    JobNegotiation, Template, Transaction,
};
use crate::negotiator::{
    can_handle, coinbase_projected, handle_outcome, Error, JobNegotiator, SendTo,
};

verus! {

/// A token grant is answered with a commit carrying the grant's request id
/// and token, unchanged.
pub proof fn lemma_commit_carries_grant(
    s: JobNegotiator,
    m: AllocateMiningJobTokenSuccess,
    r: Result<SendTo, Error>,
    s2: JobNegotiator,
)
    requires
        handle_outcome(s, JobNegotiation::AllocateMiningJobTokenSuccess(m), r, s2),
    ensures
        r matches Ok(SendTo::Respond(JobNegotiation::CommitMiningJob(j)))
            && j.request_id == m.request_id && j.mining_job_token@ == m.mining_job_token@,
{
}

/// After template `t` is set, the commit built for a token grant carries the
/// six coinbase fields of `t` verbatim.
pub proof fn lemma_template_projection(
    s: JobNegotiator,
    t: Template,
    m: AllocateMiningJobTokenSuccess,
    r: Result<SendTo, Error>,
    s2: JobNegotiator,
)
    requires
        s.last_new_template == Some(t),
        handle_outcome(s, JobNegotiation::AllocateMiningJobTokenSuccess(m), r, s2),
    ensures
        r matches Ok(SendTo::Respond(JobNegotiation::CommitMiningJob(j))) && coinbase_projected(j, t),
{
}

/// Every response carries the request id of the message it answers.
pub proof fn lemma_correlation_preserved(
    s: JobNegotiator,
    msg: JobNegotiation,
    r: Result<SendTo, Error>,
    s2: JobNegotiator,
)
    requires
        handle_outcome(s, msg, r, s2),
    ensures
        r matches Ok(SendTo::Respond(out)) ==> request_id_of(out) == request_id_of(msg),
{
}

/// A message that this role sends is refused when received, in any state:
/// the result is `UnexpectedMessage` with the message itself, nothing is
/// sent and the session is left as it was.
pub proof fn lemma_role_legality(
    s: JobNegotiator,
    msg: JobNegotiation,
    r: Result<SendTo, Error>,
    s2: JobNegotiator,
)
    requires
        is_sent_by_this_role(msg),
    ensures
        can_handle(s, msg),
        handle_outcome(s, msg, r, s2) ==> r == Err::<SendTo, Error>(Error::UnexpectedMessage(msg))
            && s2 == s,
{
}

/// A job acceptance can be handled with or without a template, sends
/// nothing and changes nothing.
pub proof fn lemma_terminal_no_op(
    s: JobNegotiator,
    msg: JobNegotiation,
    r: Result<SendTo, Error>,
    s2: JobNegotiator,
)
    requires
        msg is CommitMiningJobSuccess,
    ensures
        can_handle(s, msg),
        handle_outcome(s, msg, r, s2) ==> r == Ok::<SendTo, Error>(SendTo::NoResponse) && s2 == s,
{
}

/// After a commit, a transaction identification request is answered with the
/// hashes of the transactions behind the commit's short ids, in that order:
/// one hash per short id sent.
pub proof fn lemma_identify_follows_commit(
    s: JobNegotiator,
    m: AllocateMiningJobTokenSuccess,
    r1: Result<SendTo, Error>,
    s1: JobNegotiator,
    q: IdentifyTransactions,
    r2: Result<SendTo, Error>,
    s2: JobNegotiator,
)
    requires
        s.propagation.wf(),
        handle_outcome(s, JobNegotiation::AllocateMiningJobTokenSuccess(m), r1, s1),
        handle_outcome(s1, JobNegotiation::IdentifyTransactions(q), r2, s2),
    ensures
        r1 matches Ok(SendTo::Respond(JobNegotiation::CommitMiningJob(j)))
            && r2 matches Ok(SendTo::Respond(JobNegotiation::IdentifyTransactionsSuccess(x)))
            && x.request_id == q.request_id
            && x.tx_hash_list@.len() == j.tx_short_hash_list@.len()
            && x.tx_hash_list@ == s.propagation.transactions@.map_values(|t: Transaction| t.hash),
{
    let a = s1.committed_transactions@.map_values(|t: Transaction| t.hash);
    let b = s.propagation.transactions@.map_values(|t: Transaction| t.hash);
    assert(a =~= b) by {
        assert forall|i: int| 0 <= i < a.len() implies a[i] == b[i] by {
            assert(s1.committed_transactions@[i].hash == s.propagation.transactions@[i].hash);
        }
    }
}

/// A token grant may be handled only once a template is known.
pub proof fn lemma_grant_needs_template(s: JobNegotiator, m: AllocateMiningJobTokenSuccess)
    ensures
        can_handle(s, JobNegotiation::AllocateMiningJobTokenSuccess(m)) <==> s.last_new_template is Some,
{
}

} // verus!
