use shmem_ipc::sharedring::{Receiver, Sender};
use shmem_ipc_gem::transfer::{IncomingBatch, OutgoingBatch};

fn int_pair(capacity: usize) -> (Sender<i64>, Receiver<i64>) {
    let s: Sender<i64> = Sender::new(capacity).unwrap();
    let memfd = s.memfd().as_file().try_clone().unwrap();
    let e = s.empty_signal().try_clone().unwrap();
    let f = s.full_signal().try_clone().unwrap();
    let r: Receiver<i64> = Receiver::open(capacity, memfd, e, f).unwrap();
    (s, r)
}

fn send_ints(s: &mut Sender<i64>, batch: &mut OutgoingBatch<i64>) -> usize {
    let offered = s.sender_mut().write_count().unwrap();
    let chunk = batch.next_chunk(offered).to_vec();
    let mut items = chunk.iter().copied();
    s.sender_mut().send_foreach(chunk.len(), || items.next().unwrap());
    chunk.len()
}

fn receive_ints(r: &mut Receiver<i64>) -> Vec<i64> {
    let offered = r.receiver_mut().read_count().unwrap();
    let mut read = Vec::new();
    r.receiver_mut().recv_foreach(offered, |x| read.push(x));
    let mut inbox = IncomingBatch::new();
    assert_eq!(inbox.accept(&read), offered);
    inbox.into_items()
}

#[test]
fn integers_arrive_as_sent() {
    let (mut s, mut r) = int_pair(1000);
    let mut batch = OutgoingBatch::new(vec![1, 2, 42, -10]);
    assert_eq!(send_ints(&mut s, &mut batch), 4);
    assert!(batch.is_drained());
    assert_eq!(receive_ints(&mut r), vec![1, 2, 42, -10]);
    assert_eq!(receive_ints(&mut r), Vec::<i64>::new());
}

#[test]
fn full_ring_takes_only_what_fits() {
    let (mut s, mut r) = int_pair(1000);
    let slots = s.sender_mut().write_count().unwrap();
    let items: Vec<i64> = (0..(slots as i64 + 5)).collect();
    let mut batch = OutgoingBatch::new(items.clone());
    assert_eq!(send_ints(&mut s, &mut batch), slots);
    assert_eq!(batch.pending(), 5);
    assert_eq!(send_ints(&mut s, &mut batch), 0);
    let first = receive_ints(&mut r);
    assert_eq!(first.len(), slots);
    assert_eq!(send_ints(&mut s, &mut batch), 5);
    let mut all = first;
    all.extend(receive_ints(&mut r));
    assert_eq!(all, items);
}
