# shmem_ipc_gem

The verified core of a Ruby extension (`ShmemIpc`) that exposes shmem-ipc's
shared-memory ring buffers as six classes: float, integer and byte senders
and receivers.

- `src/transfer.rs` — `OutgoingBatch` decides which items a send writes into
  the contiguous slots the ring offers (as many pending items as fit, in
  order, never more than offered); `IncomingBatch` collects every item the
  ring hands over. `lemma_delivery_in_order` proves that any sequence of
  offers delivers the items in order with nothing skipped or repeated.
- `src/payload.rs` — how a byte sender turns a string or an array of
  integers into bytes (each integer modulo 256, the same as a truncating
  cast).
- `src/descriptors.rs` — the descriptor triple handed to a peer, with `-1`
  for a descriptor that could not be duplicated.
- `src/endpoint.rs` — class names, labels and the wording of failures.
- `app/` — the Ruby glue (rb-sys) and the ring calls (shmem-ipc), which do
  I/O on memfds, eventfds and the shared mapping.
