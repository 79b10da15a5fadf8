use vstd::prelude::*;

verus! {

/// How many items go into a ring that offers `offered` contiguous free slots
/// when `pending` items are still waiting: as many as fit.
pub open spec fn chunk_len(pending: nat, offered: nat) -> nat {
    if offered < pending {
        offered
    } else {
        pending
    }
}

/// The items written next, when the first `sent` of `items` are already out
/// and the ring offers `offered` slots.
pub open spec fn next_chunk<T>(items: Seq<T>, sent: nat, offered: nat) -> Seq<T> {
    items.subrange(sent as int, (sent + chunk_len((items.len() - sent) as nat, offered)) as int)
}

/// Where the cursor stands after the ring has made the offers in `offers`,
/// one after another, starting from `sent`.
pub open spec fn cursor_after<T>(items: Seq<T>, sent: nat, offers: Seq<nat>) -> nat
    decreases offers.len(),
{
    if offers.len() == 0 {
        sent
    } else {
        cursor_after(
            items,
            sent + chunk_len((items.len() - sent) as nat, offers[0]),
            offers.drop_first(),
        )
    }
}

/// Everything written into the ring while it makes the offers in `offers`,
/// chunk after chunk.
pub open spec fn delivered<T>(items: Seq<T>, sent: nat, offers: Seq<nat>) -> Seq<T>
    decreases offers.len(),
{
    if offers.len() == 0 {
        Seq::empty()
    } else {
        next_chunk(items, sent, offers[0]) + delivered(
            items,
            sent + chunk_len((items.len() - sent) as nat, offers[0]),
            offers.drop_first(),
        )
    }
}

/// Whatever offers the ring makes, the items written into it are the pending
/// items in their original order, with nothing skipped and nothing repeated:
/// they are exactly the items between the cursor before and the cursor after,
/// and the cursor never runs past the end.
pub proof fn lemma_delivery_in_order<T>(items: Seq<T>, sent: nat, offers: Seq<nat>)
    requires
        sent <= items.len(),
    ensures
        sent <= cursor_after(items, sent, offers) <= items.len(),
        delivered(items, sent, offers) == items.subrange(
            sent as int,
            cursor_after(items, sent, offers) as int,
        ),
    decreases offers.len(),
{
    if offers.len() > 0 {
        let next = sent + chunk_len((items.len() - sent) as nat, offers[0]);
        lemma_delivery_in_order(items, next, offers.drop_first());
        let end = cursor_after(items, next, offers.drop_first());
        assert(items.subrange(sent as int, next as int) + items.subrange(next as int, end as int)
            =~= items.subrange(sent as int, end as int));
    } else {
        assert(items.subrange(sent as int, sent as int) =~= Seq::<T>::empty());
    }
}

/// A ring that offers at least as many slots as there are pending items takes
/// all of them at once.
pub proof fn lemma_roomy_ring_takes_everything<T>(items: Seq<T>, sent: nat, offered: nat)
    requires
        sent <= items.len(),
        items.len() - sent <= offered,
    ensures
        next_chunk(items, sent, offered) == items.subrange(sent as int, items.len() as int),
{
}

/// A ring that offers fewer slots than there are pending items is filled:
/// the chunk has exactly as many items as the ring offers, and they are the
/// next pending items in order.
pub proof fn lemma_scarce_ring_is_filled<T>(items: Seq<T>, sent: nat, offered: nat)
    requires
        sent <= items.len(),
        offered <= items.len() - sent,
    ensures
        next_chunk(items, sent, offered).len() == offered,
        forall|i: int|
            0 <= i < offered ==> #[trigger] next_chunk(items, sent, offered)[i] == items[sent + i],
{
}

/// Whatever the ring offers, the chunk is the next pending items in order, as
/// many as the offer and the pending items both allow: it is never longer than
/// either, and it is shorter than the offer only when it holds every pending
/// item.
pub proof fn lemma_chunk_is_next_items<T>(items: Seq<T>, sent: nat, offered: nat)
    requires
        sent <= items.len(),
    ensures
        next_chunk(items, sent, offered).len() <= offered,
        next_chunk(items, sent, offered).len() <= items.len() - sent,
        next_chunk(items, sent, offered).len() == offered
            || next_chunk(items, sent, offered).len() == items.len() - sent,
        forall|i: int|
            0 <= i < next_chunk(items, sent, offered).len()
                ==> #[trigger] next_chunk(items, sent, offered)[i] == items[sent + i],
{
}

/// Items waiting to be written into a shared ring, with a cursor that marks
/// how many of them have gone out already.
pub struct OutgoingBatch<T> {
    items: Vec<T>,
    sent: usize,
}

impl<T> OutgoingBatch<T> {
    #[verifier::type_invariant]
    closed spec fn cursor_in_range(self) -> bool {
        self.sent <= self.items@.len()
    }
}

impl<T: Copy> OutgoingBatch<T> {
    /// Everything the batch was made with, sent or not.
    pub closed spec fn items(self) -> Seq<T> {
        self.items@
    }

    /// How many of `items()` have been written, counted from the front.
    pub closed spec fn sent_count(self) -> nat {
        self.sent as nat
    }

    /// A batch of which nothing has been written yet.
    pub fn new(items: Vec<T>) -> (batch: Self)
        ensures
            batch.items() == items@,
            batch.sent_count() == 0,
    {
        OutgoingBatch { items, sent: 0 }
    }

    /// Writes the next items into a ring offering `offered` contiguous slots and
    /// returns them: as many pending items as fit, in their original order.
    pub fn next_chunk(&mut self, offered: usize) -> (chunk: &[T])
        ensures
            chunk@ == next_chunk(old(self).items(), old(self).sent_count(), offered as nat),
            final(self).items() == old(self).items(),
            final(self).sent_count() == old(self).sent_count() + chunk@.len(),
            chunk@.len() <= offered,
            final(self).sent_count() <= final(self).items().len(),
            offered <= old(self).items().len() - old(self).sent_count() ==> chunk@.len() == offered,
            old(self).items().len() - old(self).sent_count() <= offered ==> chunk@.len()
                == old(self).items().len() - old(self).sent_count(),
            forall|i: int|
                0 <= i < chunk@.len() ==> #[trigger] chunk@[i] == old(self).items()[old(
                    self,
                ).sent_count() + i],
    {
        proof { use_type_invariant(&*self); }
        let start = self.sent;
        let pending = self.items.len() - start;
        let n = if offered < pending { offered } else { pending };
        self.sent = start + n;
        &self.items.as_slice()[start..start + n]
    }

    /// How many items the batch was made with.
    pub fn len(&self) -> (n: usize)
        ensures
            n == self.items().len(),
    {
        self.items.len()
    }

    /// How many items have been written so far.
    pub fn sent(&self) -> (n: usize)
        ensures
            n == self.sent_count(),
    {
        self.sent
    }

    /// How many items still wait to be written.
    pub fn pending(&self) -> (n: usize)
        ensures
            n == self.items().len() - self.sent_count(),
    {
        proof { use_type_invariant(self); }
        self.items.len() - self.sent
    }

    /// Whether every item has been written.
    pub fn is_drained(&self) -> (b: bool)
        ensures
            b <==> self.sent_count() == self.items().len(),
    {
        proof { use_type_invariant(self); }
        self.sent == self.items.len()
    }
}

/// Items read out of a shared ring, in the order the ring handed them over.
pub struct IncomingBatch<T> {
    items: Vec<T>,
}

impl<T: Copy> IncomingBatch<T> {
    /// Everything collected so far.
    pub closed spec fn items(self) -> Seq<T> {
        self.items@
    }

    /// A batch that holds nothing yet.
    pub fn new() -> (batch: Self)
        ensures
            batch.items() == Seq::<T>::empty(),
    {
        IncomingBatch { items: Vec::new() }
    }

    /// Takes every item the ring offers, appending them in order, and returns
    /// how many the ring may now drop: all of them.
    pub fn accept(&mut self, offered: &[T]) -> (taken: usize)
        ensures
            taken == offered@.len(),
            final(self).items() == old(self).items() + offered@,
    {
        let mut i: usize = 0;
        while i < offered.len()
            invariant
                i <= offered@.len(),
                self.items@ == old(self).items@ + offered@.subrange(0, i as int),
            decreases offered@.len() - i,
        {
            self.items.push(offered[i]);
            i = i + 1;
        }
        proof {
            assert(offered@.subrange(0, offered@.len() as int) =~= offered@);
        }
        offered.len()
    }

    /// How many items have been collected.
    pub fn len(&self) -> (n: usize)
        ensures
            n == self.items().len(),
    {
        self.items.len()
    }

    /// Hands over the collected items.
    pub fn into_items(self) -> (items: Vec<T>)
        ensures
            items@ == self.items(),
    {
        self.items
    }
}

} // verus!
