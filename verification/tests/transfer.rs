use shmem_ipc_gem::transfer::{IncomingBatch, OutgoingBatch};

#[test]
fn chunk_takes_what_fits_in_order() {
    let mut batch = OutgoingBatch::new(vec![1i64, 2, 3, 4, 5]);
    assert_eq!(batch.next_chunk(3), &[1, 2, 3]);
    assert_eq!(batch.sent(), 3);
    assert_eq!(batch.pending(), 2);
    assert!(!batch.is_drained());
    assert_eq!(batch.next_chunk(10), &[4, 5]);
    assert_eq!(batch.sent(), 5);
    assert!(batch.is_drained());
    assert_eq!(batch.next_chunk(4), &[] as &[i64]);
    assert_eq!(batch.sent(), 5);
    assert_eq!(batch.len(), 5);
}

#[test]
fn chunk_of_full_ring_is_empty() {
    let mut batch = OutgoingBatch::new(vec![7u8, 8, 9]);
    assert_eq!(batch.next_chunk(0), &[] as &[u8]);
    assert_eq!(batch.sent(), 0);
    assert_eq!(batch.pending(), 3);
}

#[test]
fn roomy_ring_takes_everything_at_once() {
    let mut batch = OutgoingBatch::new(vec![1.0f64, 2.0, 3.14, 42.0]);
    assert_eq!(batch.next_chunk(1000), &[1.0, 2.0, 3.14, 42.0]);
    assert!(batch.is_drained());
}

#[test]
fn empty_batch_is_drained() {
    let mut batch: OutgoingBatch<i64> = OutgoingBatch::new(Vec::new());
    assert!(batch.is_drained());
    assert_eq!(batch.next_chunk(5), &[] as &[i64]);
}

#[test]
fn successive_chunks_deliver_every_item_once_in_order() {
    let items: Vec<u8> = (0..=20).collect();
    let mut batch = OutgoingBatch::new(items.clone());
    let mut delivered: Vec<u8> = Vec::new();
    for offer in [4usize, 0, 7, 1, 100, 3] {
        let chunk = batch.next_chunk(offer);
        assert!(chunk.len() <= offer);
        delivered.extend_from_slice(chunk);
    }
    assert_eq!(delivered, items);
    assert_eq!(batch.sent(), items.len());
}

#[test]
fn accept_takes_everything_offered() {
    let mut batch = IncomingBatch::new();
    assert_eq!(batch.len(), 0);
    assert_eq!(batch.accept(&[1i64, -2, 3]), 3);
    assert_eq!(batch.accept(&[]), 0);
    assert_eq!(batch.accept(&[42]), 1);
    assert_eq!(batch.len(), 4);
    assert_eq!(batch.into_items(), vec![1, -2, 3, 42]);
}
