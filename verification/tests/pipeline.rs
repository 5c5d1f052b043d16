use da_spammer::blob::{synthesize, synthetic_len};
use da_spammer::prepare::{attach_commitments, prepare_item, synthesize_batch};
use da_spammer::{build_blob_and_commitments, build_commitments, DEFAULT_COLS, DEFAULT_ROWS};

#[test]
fn synthesize_fills_every_byte() {
    let blob = synthesize(97, 5);
    assert_eq!(blob, vec![97u8; 5]);
    let blob = synthesize(0, 3);
    assert_eq!(blob, vec![0u8, 0u8, 0u8]);
}

#[test]
fn synthesize_zero_length_is_empty() {
    let blob = synthesize(97, 0);
    assert!(blob.is_empty());
}

#[test]
fn synthetic_len_shrinks_and_clamps() {
    assert_eq!(synthetic_len(5, 0), 5);
    assert_eq!(synthetic_len(5, 3), 2);
    assert_eq!(synthetic_len(5, 5), 0);
    assert_eq!(synthetic_len(5, 9), 0);
}

#[test]
fn grid_defaults() {
    assert_eq!(DEFAULT_ROWS, 1024);
    assert_eq!(DEFAULT_COLS, 4096);
}

#[test]
fn hash_is_keccak_of_content() {
    let blob = vec![1u8, 2u8, 3u8];
    let (hash, comm) = build_commitments(&blob, vec![9u8, 9u8]);
    assert_eq!(hash, sp_crypto_hashing::keccak_256(&blob));
    assert_eq!(comm, vec![9u8, 9u8]);
}

#[test]
fn hash_is_deterministic() {
    let blob = vec![5u8; 100];
    let (h1, _) = build_commitments(&blob, Vec::new());
    let (h2, _) = build_commitments(&blob, Vec::new());
    assert_eq!(h1, h2);
}

#[test]
fn build_blob_and_commitments_assembles_all_parts() {
    let (blob, hash, comm) = build_blob_and_commitments(98, 4, vec![7u8]);
    assert_eq!(blob, vec![98u8; 4]);
    assert_eq!(hash, sp_crypto_hashing::keccak_256(&blob));
    assert_eq!(comm, vec![7u8]);
}

#[test]
fn prepare_item_carries_digest_of_its_blob() {
    let item = prepare_item(vec![10u8, 20u8], vec![3u8]);
    assert_eq!(item.blob, vec![10u8, 20u8]);
    assert_eq!(item.blob_hash, sp_crypto_hashing::keccak_256(&[10u8, 20u8]));
    assert_eq!(item.commitments, vec![3u8]);
}

#[test]
fn synthetic_batch_sizes_shrink_by_index() {
    let batch = synthesize_batch(97, 5, 3);
    assert_eq!(batch.len(), 3);
    assert_eq!(batch[0].0.len(), 5);
    assert_eq!(batch[1].0.len(), 4);
    assert_eq!(batch[2].0.len(), 3);
}

#[test]
fn synthetic_batch_clamps_at_zero() {
    let batch = synthesize_batch(97, 2, 5);
    let lens: Vec<usize> = batch.iter().map(|(b, _)| b.len()).collect();
    assert_eq!(lens, vec![2, 1, 0, 0, 0]);
}

#[test]
fn scenario_three_one_mib_blobs() {
    let len_bytes = da_spammer::config::len_bytes(1);
    assert_eq!(len_bytes, 1048576);
    let batch = synthesize_batch(97, len_bytes, 3);
    let lens: Vec<usize> = batch.iter().map(|(b, _)| b.len()).collect();
    assert_eq!(lens, vec![1048576, 1048575, 1048574]);
    for (blob, hash) in &batch {
        assert!(blob.iter().all(|&b| b == 97));
        assert_eq!(*hash, sp_crypto_hashing::keccak_256(blob));
    }
    let start: u32 = 42;
    let plan = da_spammer::submit::submission_plan(start, 3);
    let nonces: Vec<u32> = plan.iter().map(|e| e.0).collect();
    assert_eq!(nonces, vec![42, 43, 44]);
}

#[test]
fn attach_commitments_keeps_index_order() {
    let items = synthesize_batch(97, 4, 2);
    let h0 = items[0].1;
    let h1 = items[1].1;
    let prepared = attach_commitments(items, vec![vec![1u8], vec![2u8]]);
    assert_eq!(prepared.len(), 2);
    assert_eq!(prepared[0].blob.len(), 4);
    assert_eq!(prepared[0].blob_hash, h0);
    assert_eq!(prepared[0].commitments, vec![1u8]);
    assert_eq!(prepared[1].blob.len(), 3);
    assert_eq!(prepared[1].blob_hash, h1);
    assert_eq!(prepared[1].commitments, vec![2u8]);
}
