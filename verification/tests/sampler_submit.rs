use da_spammer::sampler::{concat_step, single_sample};
use da_spammer::submit::{routing_tag, run_summary, submission_plan, SequenceState, SubmitOutcome};

#[test]
fn concat_appends_whole_payloads_under_limit() {
    let mut acc: Vec<u8> = Vec::new();
    let batch = vec![vec![1u8; 4], vec![2u8; 4], vec![3u8; 4]];
    let stop = concat_step(&mut acc, &batch, 10);
    assert!(stop);
    let mut expected = vec![1u8; 4];
    expected.extend_from_slice(&[2u8; 4]);
    assert_eq!(acc, expected);
    assert_eq!(acc.len(), 8);
}

#[test]
fn concat_drops_payload_that_meets_limit_exactly() {
    let mut acc: Vec<u8> = Vec::new();
    let batch = vec![vec![5u8; 10]];
    let stop = concat_step(&mut acc, &batch, 10);
    assert!(stop);
    assert!(acc.is_empty());
}

#[test]
fn concat_without_stop_asks_for_another_batch() {
    let mut acc: Vec<u8> = Vec::new();
    let batch = vec![vec![1u8, 2u8]];
    let stop = concat_step(&mut acc, &batch, 100);
    assert!(!stop);
    assert_eq!(acc, vec![1u8, 2u8]);
    let stop = concat_step(&mut acc, &batch, 100);
    assert!(!stop);
    assert_eq!(acc, vec![1u8, 2u8, 1u8, 2u8]);
}

#[test]
fn concat_never_exceeds_limit() {
    let mut acc: Vec<u8> = Vec::new();
    let batch = vec![vec![0u8; 7], vec![1u8; 7], vec![2u8; 7]];
    let stop = concat_step(&mut acc, &batch, 15);
    assert!(stop);
    assert!(acc.len() < 15);
    assert_eq!(acc.len(), 14);
}

#[test]
fn single_sample_waits_on_empty_batch() {
    let empty: Vec<Vec<u8>> = Vec::new();
    assert_eq!(single_sample(&empty), None);
    let batch = vec![vec![8u8, 9u8], vec![1u8]];
    assert_eq!(single_sample(&batch), Some(vec![8u8, 9u8]));
}

#[test]
fn routing_tags_cycle_round_robin() {
    for i in 0..23usize {
        assert_eq!(routing_tag(i), (i % 5) as u32);
    }
}

#[test]
fn plan_nonces_are_contiguous_and_distinct() {
    let plan = submission_plan(1000, 12);
    assert_eq!(plan.len(), 12);
    for (i, (nonce, tag)) in plan.iter().enumerate() {
        assert_eq!(*nonce, 1000 + i as u32);
        assert_eq!(*tag, (i % 5) as u32);
    }
    for i in 0..plan.len() {
        for j in 0..plan.len() {
            if i != j {
                assert_ne!(plan[i].0, plan[j].0);
            }
        }
    }
}

#[test]
fn one_failure_among_three_still_consumes_three_nonces() {
    let outcomes = vec![
        SubmitOutcome::Accepted,
        SubmitOutcome::Failed(String::from("node rejected the blob")),
        SubmitOutcome::Accepted,
    ];
    let (ok, failed, next_nonce) = run_summary(5, &outcomes);
    assert_eq!(ok, 2);
    assert_eq!(failed, 1);
    assert_eq!(next_nonce, 8);
}

#[test]
fn summary_of_all_failures() {
    let outcomes = vec![
        SubmitOutcome::Failed(String::from("offline")),
        SubmitOutcome::Failed(String::from("offline")),
    ];
    let (ok, failed, next_nonce) = run_summary(0, &outcomes);
    assert_eq!(ok, 0);
    assert_eq!(failed, 2);
    assert_eq!(next_nonce, 2);
}

#[test]
fn sequence_state_advances_by_one_per_attempt() {
    let mut seq_state = SequenceState::new(7);
    assert_eq!(seq_state.advance(), 7);
    assert_eq!(seq_state.advance(), 8);
    assert_eq!(seq_state.nonce, 9);
}
