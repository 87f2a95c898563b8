use job_negotiator::messages::{
    copy_vec, AllocateMiningJobToken, AllocateMiningJobTokenSuccess, CommitMiningJob,
    CommitMiningJobError, CommitMiningJobSuccess, IdentifyTransactions,
    IdentifyTransactionsSuccess, JobNegotiation, ProvideMissingTransactions,
    ProvideMissingTransactionsSuccess, Template, Transaction,
};
use job_negotiator::negotiator::{Error, JobNegotiator, PropagationData, SendTo};
use job_negotiator::NEGOTIATION_VERSION;

fn template_t1() -> Template {
    Template {
        coinbase_tx_version: 2,
        coinbase_prefix: vec![],
        coinbase_tx_input_sequence: 0xffffffff,
        coinbase_tx_value_remaining: 5000000000,
        coinbase_tx_outputs: vec![],
        coinbase_tx_locktime: 0,
    }
}

fn template_t2() -> Template {
    Template {
        coinbase_tx_version: 1,
        coinbase_prefix: vec![3, 1, 2, 3],
        coinbase_tx_input_sequence: 7,
        coinbase_tx_value_remaining: 625000000,
        coinbase_tx_outputs: vec![9, 8, 7],
        coinbase_tx_locktime: 800000,
    }
}

fn grant(request_id: u32, token: &[u8]) -> JobNegotiation {
    JobNegotiation::AllocateMiningJobTokenSuccess(AllocateMiningJobTokenSuccess {
        request_id,
        mining_job_token: token.to_vec(),
        coinbase_output_max_additional_size: 0,
    })
}

fn expect_commit(r: Result<SendTo, Error>) -> CommitMiningJob {
    match r {
        Ok(SendTo::Respond(JobNegotiation::CommitMiningJob(j))) => j,
        _ => panic!("expected a commit"),
    }
}

fn tx(hash_byte: u8, body: &[u8]) -> Transaction {
    Transaction { hash: [hash_byte; 32], body: body.to_vec() }
}

fn negotiator_with_transactions() -> JobNegotiator {
    let mut n = JobNegotiator::new();
    n.propagation.transactions = vec![tx(0xaa, &[1, 2, 3]), tx(0xbb, &[4, 5])];
    n.propagation.tx_short_hash_list = vec![[1; 6], [2; 6]];
    n.set_template(template_t1());
    let _ = expect_commit(n.handle_message_job_negotiation(grant(1, b"tok")));
    n
}

#[test]
fn scenario_commit_from_template() {
    let mut n = JobNegotiator::new();
    n.set_template(template_t1());
    let j = expect_commit(n.handle_message_job_negotiation(grant(7, b"abc")));
    assert_eq!(j.request_id, 7);
    assert_eq!(j.mining_job_token, b"abc".to_vec());
    assert_eq!(j.version, 2);
    assert_eq!(j.coinbase_tx_version, 2);
    assert_eq!(j.coinbase_prefix, Vec::<u8>::new());
    assert_eq!(j.coinbase_tx_input_n_sequence, 0xffffffff);
    assert_eq!(j.coinbase_tx_value_remaining, 5000000000);
    assert_eq!(j.coinbase_tx_outputs, Vec::<u8>::new());
    assert_eq!(j.coinbase_tx_locktime, 0);
    assert_eq!(j.min_extranonce_size, 0);
    assert_eq!(j.tx_short_hash_nonce, 0);
    assert!(j.tx_short_hash_list.is_empty());
    assert_eq!(j.tx_hash_list_hash, [0u8; 32]);
    assert!(j.excess_data.is_empty());
}

#[test]
fn commit_carries_request_id_and_token() {
    let mut n = JobNegotiator::new();
    n.set_template(template_t2());
    let j = expect_commit(n.handle_message_job_negotiation(grant(0xdeadbeef, &[0, 255, 17])));
    assert_eq!(j.request_id, 0xdeadbeef);
    assert_eq!(j.mining_job_token, vec![0, 255, 17]);
    assert_eq!(j.version, NEGOTIATION_VERSION);
}

#[test]
fn commit_uses_latest_template_verbatim() {
    let mut n = JobNegotiator::new();
    n.set_template(template_t1());
    n.set_template(template_t2());
    let j = expect_commit(n.handle_message_job_negotiation(grant(1, b"k")));
    let t = template_t2();
    assert_eq!(j.coinbase_tx_version, t.coinbase_tx_version);
    assert_eq!(j.coinbase_prefix, t.coinbase_prefix);
    assert_eq!(j.coinbase_tx_input_n_sequence, t.coinbase_tx_input_sequence);
    assert_eq!(j.coinbase_tx_value_remaining, t.coinbase_tx_value_remaining);
    assert_eq!(j.coinbase_tx_outputs, t.coinbase_tx_outputs);
    assert_eq!(j.coinbase_tx_locktime, t.coinbase_tx_locktime);
    assert!(n.last_new_template.is_some());
}

#[test]
fn commit_copies_propagation_fields() {
    let mut n = JobNegotiator::new();
    n.propagation.min_extranonce_size = 4;
    n.propagation.tx_short_hash_nonce = 99;
    n.propagation.tx_short_hash_list = vec![[5; 6]];
    n.propagation.tx_hash_list_hash = [7; 32];
    n.propagation.excess_data = vec![1];
    n.set_template(template_t1());
    let j = expect_commit(n.allocate_mining_job_token_success(AllocateMiningJobTokenSuccess {
        request_id: 2,
        mining_job_token: vec![1],
        coinbase_output_max_additional_size: 100,
    }));
    assert_eq!(j.min_extranonce_size, 4);
    assert_eq!(j.tx_short_hash_nonce, 99);
    assert_eq!(j.tx_short_hash_list, vec![[5u8; 6]]);
    assert_eq!(j.tx_hash_list_hash, [7u8; 32]);
    assert_eq!(j.excess_data, vec![1]);
}

#[test]
fn identify_answers_with_committed_hashes_in_order() {
    let mut n = negotiator_with_transactions();
    let r = n.handle_message_job_negotiation(JobNegotiation::IdentifyTransactions(
        IdentifyTransactions { request_id: 41 },
    ));
    match r {
        Ok(SendTo::Respond(JobNegotiation::IdentifyTransactionsSuccess(x))) => {
            assert_eq!(x.request_id, 41);
            assert_eq!(x.tx_hash_list, vec![[0xaau8; 32], [0xbbu8; 32]]);
        }
        _ => panic!("expected identify success"),
    }
}

#[test]
fn identify_before_any_commit_is_empty() {
    let mut n = JobNegotiator::new();
    let r = n.identify_transactions(IdentifyTransactions { request_id: 5 });
    match r {
        Ok(SendTo::Respond(JobNegotiation::IdentifyTransactionsSuccess(x))) => {
            assert_eq!(x.request_id, 5);
            assert!(x.tx_hash_list.is_empty());
        }
        _ => panic!("expected identify success"),
    }
}

#[test]
fn provide_answers_bodies_in_requested_order() {
    let mut n = negotiator_with_transactions();
    let r = n.handle_message_job_negotiation(JobNegotiation::ProvideMissingTransactions(
        ProvideMissingTransactions { request_id: 8, unknown_tx_position_list: vec![1, 0, 1] },
    ));
    match r {
        Ok(SendTo::Respond(JobNegotiation::ProvideMissingTransactionsSuccess(x))) => {
            assert_eq!(x.request_id, 8);
            assert_eq!(x.transaction_list, vec![vec![4, 5], vec![1, 2, 3], vec![4, 5]]);
        }
        _ => panic!("expected provide success"),
    }
}

#[test]
fn provide_with_empty_list_is_empty() {
    let mut n = JobNegotiator::new();
    let r = n.provide_missing_transactions(ProvideMissingTransactions {
        request_id: 9,
        unknown_tx_position_list: vec![],
    });
    match r {
        Ok(SendTo::Respond(JobNegotiation::ProvideMissingTransactionsSuccess(x))) => {
            assert_eq!(x.request_id, 9);
            assert!(x.transaction_list.is_empty());
        }
        _ => panic!("expected provide success"),
    }
}

#[test]
fn provide_reports_first_unknown_position() {
    let mut n = negotiator_with_transactions();
    let r = n.provide_missing_transactions(ProvideMissingTransactions {
        request_id: 12,
        unknown_tx_position_list: vec![0, 5, 2],
    });
    match r {
        Err(Error::UnknownTransactionIndex { request_id, position }) => {
            assert_eq!(request_id, 12);
            assert_eq!(position, 5);
        }
        _ => panic!("expected an unknown position"),
    }
}

#[test]
fn messages_sent_by_this_role_are_unexpected() {
    let sent = vec![
        JobNegotiation::AllocateMiningJobToken(AllocateMiningJobToken {
            request_id: 1,
            user_identifier: vec![],
        }),
        JobNegotiation::CommitMiningJob(CommitMiningJob {
            request_id: 2,
            mining_job_token: vec![],
            version: 2,
            coinbase_tx_version: 2,
            coinbase_prefix: vec![],
            coinbase_tx_input_n_sequence: 0,
            coinbase_tx_value_remaining: 0,
            coinbase_tx_outputs: vec![],
            coinbase_tx_locktime: 0,
            min_extranonce_size: 0,
            tx_short_hash_nonce: 0,
            tx_short_hash_list: vec![],
            tx_hash_list_hash: [0; 32],
            excess_data: vec![],
        }),
        JobNegotiation::IdentifyTransactionsSuccess(IdentifyTransactionsSuccess {
            request_id: 3,
            tx_hash_list: vec![],
        }),
        JobNegotiation::ProvideMissingTransactionsSuccess(ProvideMissingTransactionsSuccess {
            request_id: 4,
            transaction_list: vec![],
        }),
    ];
    for msg in sent {
        let mut n = JobNegotiator::new();
        assert!(msg.sent_by_this_role());
        assert!(n.can_handle_message(&msg));
        let id = msg.request_id();
        match n.handle_message_job_negotiation(msg) {
            Err(Error::UnexpectedMessage(m)) => {
                assert!(m.sent_by_this_role());
                assert_eq!(m.request_id(), id);
            }
            _ => panic!("expected UnexpectedMessage"),
        }
        assert!(n.last_new_template.is_none());
        assert!(n.committed_transactions.is_empty());
    }
}

#[test]
fn received_messages_are_not_sent_by_this_role() {
    let m = JobNegotiation::IdentifyTransactions(IdentifyTransactions { request_id: 6 });
    assert!(!m.sent_by_this_role());
    assert_eq!(m.request_id(), 6);
    assert!(!grant(1, b"x").sent_by_this_role());
}

#[test]
fn commit_success_needs_no_template_and_sends_nothing() {
    let mut n = JobNegotiator::new();
    let msg = JobNegotiation::CommitMiningJobSuccess(CommitMiningJobSuccess {
        request_id: 3,
        new_mining_job_token: vec![1, 2],
    });
    assert!(n.can_handle_message(&msg));
    assert!(matches!(n.handle_message_job_negotiation(msg), Ok(SendTo::NoResponse)));
    assert!(n.last_new_template.is_none());
}

#[test]
fn grant_without_template_cannot_be_handled() {
    let n = JobNegotiator::new();
    assert!(!n.can_handle_message(&grant(7, b"abc")));
    let mut m = JobNegotiator::new();
    m.set_template(template_t1());
    assert!(m.can_handle_message(&grant(7, b"abc")));
}

#[test]
fn commit_error_is_surfaced_and_round_dropped() {
    let mut n = negotiator_with_transactions();
    assert_eq!(n.committed_transactions.len(), 2);
    let r = n.handle_message_job_negotiation(JobNegotiation::CommitMiningJobError(
        CommitMiningJobError { request_id: 21, error_code: b"stale".to_vec(), error_details: vec![] },
    ));
    match r {
        Err(Error::PoolRejection(e)) => {
            assert_eq!(e.request_id, 21);
            assert_eq!(e.error_code, b"stale".to_vec());
        }
        _ => panic!("expected PoolRejection"),
    }
    assert!(n.committed_transactions.is_empty());
    assert!(n.last_new_template.is_some());
}

#[test]
fn not_negotiated_propagation_is_zeroed() {
    let p = PropagationData::not_negotiated();
    assert_eq!(p.min_extranonce_size, 0);
    assert_eq!(p.tx_short_hash_nonce, 0);
    assert!(p.tx_short_hash_list.is_empty());
    assert_eq!(p.tx_hash_list_hash, [0u8; 32]);
    assert!(p.excess_data.is_empty());
    assert!(p.transactions.is_empty());
}

#[test]
fn copy_vec_keeps_elements() {
    let v: Vec<u16> = vec![3, 1, 4, 1, 5];
    assert_eq!(copy_vec(&v), v);
    assert!(copy_vec::<u8>(&vec![]).is_empty());
}
