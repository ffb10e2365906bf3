//! The bounded first-in-first-out queue between producers and the consumer.
//!
//! The slots are those of an `embassy_sync::channel::Channel`; this module
//! adds the rules for a full and an empty queue and for producers that
//! wait. Every operation changes the queue in one short step and never
//! waits: where a caller has to suspend, the operation says so and leaves
//! the waiting to the caller. A producer that has to wait is given a
//! ticket, and waiting producers are let in by ticket, one per freed slot,
//! in the order in which they came.

use vstd::prelude::*;
use embassy_sync::blocking_mutex::raw::CriticalSectionRawMutex;
use embassy_sync::channel::{Channel, TrySendError};
use crate::buffer::text_bytes;
use crate::config::{MAX_LINE_LEN, QUEUE_CAPACITY};
use crate::message::Message;

verus! {

/// The slots of a queue: an `embassy_sync::channel::Channel` for sixteen
/// texts, guarded by a critical section. Nothing inside it is visible to the
/// verifier; what it holds goes by the name [`slot_items`], and only the
/// functions below touch it.
#[verifier::external_body]
pub struct Slots {
    inner: Channel<CriticalSectionRawMutex, heapless::String<256>, 16>,
}

/// The texts that the slots hold, oldest first.
pub uninterp spec fn slot_items(slots: Slots) -> Seq<Seq<u8>>;

/// `Channel::new`: the new channel holds nothing.
#[verifier::external_body]
fn slots_new() -> (slots: Slots)
    ensures
        slot_items(slots) == Seq::<Seq<u8>>::empty(),
{
    Slots { inner: Channel::new() }
}

/// `Channel::len`: the number of texts held.
#[verifier::external_body]
fn slots_len(slots: &Slots) -> (n: usize)
    ensures
        n == slot_items(*slots).len(),
{
    slots.inner.len()
}

/// `Channel::try_send`: with fewer than sixteen texts held, `text` goes in
/// behind them; with sixteen held nothing changes and `text` comes back.
/// The call does not panic.
#[verifier::external_body]
fn slots_try_send(slots: &mut Slots, text: heapless::String<256>) -> (r: Result<
    (),
    heapless::String<256>,
>)
    ensures
        (match r {
            Ok(()) => slot_items(*old(slots)).len() < 16 && slot_items(*final(slots)) == slot_items(
                *old(slots),
            ).push(text_bytes(text)),
            Err(back) => slot_items(*old(slots)).len() >= 16 && slot_items(*final(slots))
                == slot_items(*old(slots)) && text_bytes(back) == text_bytes(text),
        }),
    no_unwind
{
    match slots.inner.try_send(text) {
        Ok(()) => Ok(()),
        Err(TrySendError::Full(back)) => Err(back),
    }
}

/// `Channel::try_receive`: the oldest text leaves and is returned; an empty
/// channel stays empty and gives nothing. The call does not panic.
#[verifier::external_body]
fn slots_try_receive(slots: &mut Slots) -> (r: Option<heapless::String<256>>)
    ensures
        (match r {
            Some(text) => slot_items(*old(slots)).len() > 0 && text_bytes(text) == slot_items(
                *old(slots),
            )[0] && slot_items(*final(slots)) == slot_items(*old(slots)).skip(1),
            None => slot_items(*old(slots)).len() == 0 && slot_items(*final(slots)) == slot_items(
                *old(slots),
            ),
        }),
    no_unwind
{
    slots.inner.try_receive().ok()
}

/// Whether a queue with these pending texts and this capacity is full.
pub open spec fn is_full_spec(items: Seq<Seq<u8>>, capacity: nat) -> bool {
    items.len() >= capacity
}

/// The pending texts after an attempt to enqueue `text`: it goes to the
/// back, or the queue is full and stays as it is.
pub open spec fn after_enqueue(items: Seq<Seq<u8>>, capacity: nat, text: Seq<u8>) -> Seq<Seq<u8>> {
    if is_full_spec(items, capacity) {
        items
    } else {
        items.push(text)
    }
}

/// The pending texts after an attempt to dequeue: the oldest has left, or
/// the queue is empty and stays so.
pub open spec fn after_dequeue(items: Seq<Seq<u8>>) -> Seq<Seq<u8>> {
    if items.len() == 0 {
        items
    } else {
        items.skip(1)
    }
}

/// What an attempt to dequeue hands out: the oldest text, if there is one.
pub open spec fn front(items: Seq<Seq<u8>>) -> Option<Seq<u8>> {
    if items.len() == 0 {
        None
    } else {
        Some(items[0])
    }
}

/// The pending texts after attempts to enqueue each of `texts` in order.
pub open spec fn after_enqueues(items: Seq<Seq<u8>>, capacity: nat, texts: Seq<Seq<u8>>) -> Seq<
    Seq<u8>,
>
    decreases texts.len(),
{
    if texts.len() == 0 {
        items
    } else {
        after_enqueues(after_enqueue(items, capacity, texts[0]), capacity, texts.skip(1))
    }
}

/// The pending texts after `count` attempts to dequeue.
pub open spec fn after_dequeues(items: Seq<Seq<u8>>, count: nat) -> Seq<Seq<u8>>
    decreases count,
{
    if count == 0 {
        items
    } else {
        after_dequeues(after_dequeue(items), (count - 1) as nat)
    }
}

/// The line of waiting producers: tickets are numbered from zero in the
/// order in which they are issued, and are served in that order.
pub ghost struct WaitLine {
    /// Number of tickets served so far, which is the number of the ticket
    /// that is served next.
    pub served: nat,
    /// Number of tickets issued so far, which is the number of the ticket
    /// that is issued next.
    pub issued: nat,
}

/// Whether a suspending producer that comes without a ticket is let in at
/// once: a slot is free and nobody waits.
pub open spec fn admits(items: Seq<Seq<u8>>, capacity: nat, line: WaitLine) -> bool {
    !is_full_spec(items, capacity) && line.served >= line.issued
}

/// Whether the producer that waits with `ticket` is let in now: a slot is
/// free and the ticket is the next to be served.
pub open spec fn serves(items: Seq<Seq<u8>>, capacity: nat, line: WaitLine, ticket: nat) -> bool {
    !is_full_spec(items, capacity) && ticket == line.served && line.served < line.issued
}

/// The best-effort producer found the queue full; its message is gone.
#[derive(Clone, Copy, Debug, PartialEq, Eq, Structural)]
pub struct QueueFull;

/// A waiting producer's place in the line.
pub struct Ticket {
    number: u64,
}

impl Ticket {
    /// The number of the ticket.
    pub closed spec fn number_spec(&self) -> u64 {
        self.number
    }

    /// The number of the ticket.
    #[verifier::when_used_as_spec(number_spec)]
    pub fn number(&self) -> (n: u64)
        ensures
            n == self.number_spec(),
    {
        self.number
    }
}

/// Outcome of one attempt of the suspending producer.
pub enum Enqueued {
    /// The message is in the queue.
    Stored,
    /// The producer has to wait. The message is handed back unchanged,
    /// with the producer's ticket: the caller suspends and offers both
    /// again with [`LogQueue::enqueue_waiting`].
    Blocked(Message, Ticket),
}

/// A bounded FIFO queue of messages with a fixed number of slots.
pub struct LogQueue {
    slots: Slots,
    limit: usize,
    served: u64,
    issued: u64,
}

impl View for LogQueue {
    type V = Seq<Seq<u8>>;

    closed spec fn view(&self) -> Seq<Seq<u8>> {
        slot_items(self.slots)
    }
}

impl LogQueue {
    #[verifier::type_invariant]
    closed spec fn well_formed(self) -> bool {
        &&& 1 <= self.limit <= QUEUE_CAPACITY
        &&& self.served <= self.issued
        &&& slot_items(self.slots).len() <= self.limit
        &&& forall|i: int|
            0 <= i < slot_items(self.slots).len() ==> (#[trigger] slot_items(self.slots)[i]).len()
                <= MAX_LINE_LEN
    }

    /// Number of slots of the queue.
    pub closed spec fn capacity_spec(&self) -> nat {
        self.limit as nat
    }

    /// The line of waiting producers.
    pub closed spec fn line(&self) -> WaitLine {
        WaitLine { served: self.served as nat, issued: self.issued as nat }
    }

    /// An empty queue with [`QUEUE_CAPACITY`] slots and nobody waiting.
    pub fn new() -> (q: LogQueue)
        ensures
            q@ == Seq::<Seq<u8>>::empty(),
            q.capacity_spec() == QUEUE_CAPACITY,
            q.line() == (WaitLine { served: 0, issued: 0 }),
    {
        LogQueue { slots: slots_new(), limit: QUEUE_CAPACITY, served: 0, issued: 0 }
    }

    /// An empty queue with `capacity` slots and nobody waiting, for a
    /// capacity from one to [`QUEUE_CAPACITY`]; `None` for any other.
    pub fn with_capacity(capacity: usize) -> (r: Option<LogQueue>)
        ensures
            r.is_some() == (1 <= capacity <= QUEUE_CAPACITY),
            r matches Some(q) ==> q@ == Seq::<Seq<u8>>::empty() && q.capacity_spec() == capacity
                && q.line() == (WaitLine { served: 0, issued: 0 }),
    {
        if 1 <= capacity && capacity <= QUEUE_CAPACITY {
            Some(LogQueue { slots: slots_new(), limit: capacity, served: 0, issued: 0 })
        } else {
            None
        }
    }

    /// Number of slots of the queue.
    pub fn capacity(&self) -> (n: usize)
        ensures
            n == self.capacity_spec(),
            1 <= n <= QUEUE_CAPACITY,
    {
        proof {
            use_type_invariant(self);
        }
        self.limit
    }

    /// Number of pending messages.
    pub fn len(&self) -> (n: usize)
        ensures
            n == self@.len(),
            n <= self.capacity_spec(),
    {
        proof {
            use_type_invariant(self);
        }
        slots_len(&self.slots)
    }

    /// Whether no message is pending.
    pub fn is_empty(&self) -> (b: bool)
        ensures
            b == (self@.len() == 0),
    {
        self.len() == 0
    }

    /// Whether every slot is taken.
    pub fn is_full(&self) -> (b: bool)
        ensures
            b == is_full_spec(self@, self.capacity_spec()),
    {
        self.len() >= self.limit
    }

    /// Number of free slots.
    pub fn free_slots(&self) -> (n: usize)
        ensures
            n == self.capacity_spec() - self@.len(),
    {
        let held = self.len();
        self.limit - held
    }

    /// Number of producers that wait with a ticket.
    pub fn waiting(&self) -> (n: u64)
        ensures
            n == self.line().issued - self.line().served,
    {
        proof {
            use_type_invariant(self);
        }
        self.issued - self.served
    }

    /// Number of tickets issued so far.
    pub fn tickets_issued(&self) -> (n: u64)
        ensures
            n == self.line().issued,
    {
        self.issued
    }

    /// The best-effort producer's enqueue: never waits. With a free slot the
    /// message goes to the back of the queue. With none the queue stays
    /// exactly as it was, the message is discarded and `QueueFull` returned.
    pub fn enqueue_nonblocking(&mut self, msg: Message) -> (r: Result<(), QueueFull>)
        ensures
            r.is_ok() == !is_full_spec(old(self)@, old(self).capacity_spec()),
            r.is_ok() ==> final(self)@ == old(self)@.push(msg@),
            r.is_err() ==> final(self)@ == old(self)@,
            final(self)@ == after_enqueue(old(self)@, old(self).capacity_spec(), msg@),
            final(self).capacity_spec() == old(self).capacity_spec(),
            final(self).line() == old(self).line(),
    {
        proof {
            use_type_invariant(&*self);
        }
        if slots_len(&self.slots) >= self.limit {
            return Err(QueueFull);
        }
        match slots_try_send(&mut self.slots, msg.into_buffer()) {
            Ok(()) => Ok(()),
            Err(_) => Err(QueueFull),
        }
    }

    /// The suspending producer's enqueue, first attempt. With a free slot
    /// and nobody waiting the message goes to the back of the queue.
    /// Otherwise the queue stays exactly as it was and the message is
    /// handed back unchanged, never dropped, with the next ticket of the
    /// line.
    pub fn enqueue_blocking(&mut self, msg: Message) -> (r: Enqueued)
        requires
            old(self).line().issued < u64::MAX,
        ensures
            r is Stored == admits(old(self)@, old(self).capacity_spec(), old(self).line()),
            r is Stored ==> ({
                &&& final(self)@ == old(self)@.push(msg@)
                &&& final(self).line() == old(self).line()
            }),
            r matches Enqueued::Blocked(back, ticket) ==> ({
                &&& back@ == msg@
                &&& ticket.number_spec() == old(self).line().issued
                &&& final(self)@ == old(self)@
                &&& final(self).line().served == old(self).line().served
                &&& final(self).line().issued == old(self).line().issued + 1
            }),
            final(self).capacity_spec() == old(self).capacity_spec(),
    {
        proof {
            use_type_invariant(&*self);
        }
        if self.served < self.issued || slots_len(&self.slots) >= self.limit {
            let ticket = Ticket { number: self.issued };
            self.issued = self.issued + 1;
            return Enqueued::Blocked(msg, ticket);
        }
        match slots_try_send(&mut self.slots, msg.into_buffer()) {
            Ok(()) => Enqueued::Stored,
            Err(back) => {
                let ticket = Ticket { number: self.issued };
                self.issued = self.issued + 1;
                Enqueued::Blocked(Message::from_buffer(back), ticket)
            },
        }
    }

    /// The suspending producer's enqueue, any further attempt. With a free
    /// slot and `ticket` the next in line the message goes to the back of
    /// the queue and the line moves on by one. Otherwise nothing changes
    /// and message and ticket are handed back.
    pub fn enqueue_waiting(&mut self, msg: Message, ticket: Ticket) -> (r: Enqueued)
        ensures
            r is Stored == serves(
                old(self)@,
                old(self).capacity_spec(),
                old(self).line(),
                ticket.number_spec() as nat,
            ),
            r is Stored ==> ({
                &&& final(self)@ == old(self)@.push(msg@)
                &&& final(self).line().served == old(self).line().served + 1
                &&& final(self).line().issued == old(self).line().issued
            }),
            r matches Enqueued::Blocked(back, kept) ==> ({
                &&& back@ == msg@
                &&& kept.number_spec() == ticket.number_spec()
                &&& final(self)@ == old(self)@
                &&& final(self).line() == old(self).line()
            }),
            final(self).capacity_spec() == old(self).capacity_spec(),
    {
        proof {
            use_type_invariant(&*self);
        }
        if ticket.number != self.served || self.served >= self.issued || slots_len(&self.slots)
            >= self.limit {
            return Enqueued::Blocked(msg, ticket);
        }
        match slots_try_send(&mut self.slots, msg.into_buffer()) {
            Ok(()) => {
                self.served = self.served + 1;
                Enqueued::Stored
            },
            Err(back) => Enqueued::Blocked(Message::from_buffer(back), ticket),
        }
    }

    /// One attempt of the consumer's dequeue. The oldest pending message
    /// leaves the queue and is returned; `None` says that the queue is empty
    /// and the consumer suspends until a message arrives.
    pub fn dequeue_blocking(&mut self) -> (r: Option<Message>)
        ensures
            (match r {
                Some(msg) => {
                    &&& old(self)@.len() > 0
                    &&& msg@ == old(self)@[0]
                    &&& final(self)@ == old(self)@.skip(1)
                },
                None => old(self)@.len() == 0 && final(self)@ == old(self)@,
            }),
            r.is_some() ==> r->0@.len() <= MAX_LINE_LEN,
            final(self)@ == after_dequeue(old(self)@),
            final(self).capacity_spec() == old(self).capacity_spec(),
            final(self).line() == old(self).line(),
    {
        proof {
            use_type_invariant(&*self);
        }
        match slots_try_receive(&mut self.slots) {
            Some(text) => Some(Message::from_buffer(text)),
            None => None,
        }
    }
}

/// Enqueuing texts for which there is room puts them behind the pending
/// ones, in the order given.
pub proof fn lemma_enqueues_with_room(items: Seq<Seq<u8>>, capacity: nat, texts: Seq<Seq<u8>>)
    requires
        items.len() + texts.len() <= capacity,
    ensures
        after_enqueues(items, capacity, texts) == items + texts,
    decreases texts.len(),
{
    if texts.len() == 0 {
        assert(items + texts =~= items);
    } else {
        lemma_enqueues_with_room(items.push(texts[0]), capacity, texts.skip(1));
        assert(items.push(texts[0]) + texts.skip(1) =~= items + texts);
    }
}

/// Dequeuing no more often than there are pending texts removes that many
/// from the front.
pub proof fn lemma_dequeues_skip(items: Seq<Seq<u8>>, count: nat)
    requires
        count <= items.len(),
    ensures
        after_dequeues(items, count) == items.skip(count as int),
    decreases count,
{
    if count == 0 {
        assert(items.skip(0) =~= items);
    } else {
        lemma_dequeues_skip(items.skip(1), (count - 1) as nat);
        assert(items.skip(1).skip(count - 1) =~= items.skip(count as int));
    }
}

/// First in, first out: of texts enqueued into an empty queue that has room
/// for them all, whoever produced them, the dequeue number `k` hands out the
/// text that was enqueued as number `k`.
pub proof fn law_fifo_order(capacity: nat, texts: Seq<Seq<u8>>, k: nat)
    requires
        texts.len() <= capacity,
        k < texts.len(),
    ensures
        after_enqueues(Seq::empty(), capacity, texts) == texts,
        front(after_dequeues(after_enqueues(Seq::empty(), capacity, texts), k)) == Some(texts[k as int]),
{
    lemma_enqueues_with_room(Seq::empty(), capacity, texts);
    assert(Seq::<Seq<u8>>::empty() + texts =~= texts);
    lemma_dequeues_skip(texts, k);
}

/// First in, first out, with texts already pending: what is enqueued while
/// there is room comes out after the pending texts and in the order in which
/// it went in.
pub proof fn law_fifo_order_behind_pending(
    items: Seq<Seq<u8>>,
    capacity: nat,
    texts: Seq<Seq<u8>>,
    k: nat,
)
    requires
        items.len() + texts.len() <= capacity,
        k < texts.len(),
    ensures
        front(after_dequeues(after_enqueues(items, capacity, texts), items.len() + k)) == Some(
            texts[k as int],
        ),
{
    lemma_enqueues_with_room(items, capacity, texts);
    lemma_dequeues_skip(items + texts, items.len() + k);
}

/// A full queue refuses an enqueue and keeps its contents, text for text.
pub proof fn law_full_queue_unchanged(items: Seq<Seq<u8>>, capacity: nat, text: Seq<u8>)
    requires
        is_full_spec(items, capacity),
    ensures
        after_enqueue(items, capacity, text) == items,
{
}

/// A producer blocked on a full queue proceeds after a single dequeue: if
/// its ticket is the next in line, the full queue does not let it in, the
/// queue that one dequeue leaves does, and its message then stands at the
/// back, behind all that was pending.
pub proof fn law_blocked_producer_proceeds(
    items: Seq<Seq<u8>>,
    capacity: nat,
    line: WaitLine,
    text: Seq<u8>,
)
    requires
        capacity >= 1,
        items.len() == capacity,
        line.served < line.issued,
    ensures
        !serves(items, capacity, line, line.served),
        serves(after_dequeue(items), capacity, line, line.served),
        after_enqueue(after_dequeue(items), capacity, text) == items.skip(1).push(text),
{
}

/// Blocked producers are let in in the order of their tickets, which is the
/// order in which they came: while an earlier ticket has not been served, a
/// later one is refused, however many slots are free and whoever asks
/// first; and serving the earlier one does not yet serve the later.
pub proof fn law_blocked_producers_keep_their_order(
    items: Seq<Seq<u8>>,
    capacity: nat,
    line: WaitLine,
    earlier: nat,
    later: nat,
)
    requires
        line.served <= earlier < later,
    ensures
        !serves(items, capacity, line, later),
        serves(items, capacity, line, earlier) ==> (WaitLine {
            served: line.served + 1,
            issued: line.issued,
        }).served <= later,
{
}

/// A suspending producer that comes while others wait does not overtake
/// them: it is not let in, whatever slots are free.
pub proof fn law_newcomer_waits_behind_the_line(items: Seq<Seq<u8>>, capacity: nat, line: WaitLine)
    requires
        line.served < line.issued,
    ensures
        !admits(items, capacity, line),
{
}

} // verus!
