//! The two bounded queues of the machine, both kept in `heapless`
//! collections: the queue of pending unprogrammed sequences and the queue of
//! channel messages that have been received. What the collections do is
//! stated here and believed by the rest of the crate.

use crate::cpu::AgcUnprogSeq;
use vstd::prelude::*;

verus! {

/// `heapless::Deque`, a double-ended queue of at most `N` items in a fixed
/// buffer. Nothing is known of it but what the functions below state.
#[verifier::external_type_specification]
#[verifier::external_body]
#[verifier::reject_recursive_types(T)]
pub struct ExDeque<T, const N: usize>(heapless::Deque<T, N>);

/// `heapless::spsc::Queue`, a queue of at most `N - 1` items in a ring of
/// `N` places. Nothing is known of it but what the functions below state.
#[verifier::external_type_specification]
#[verifier::external_body]
#[verifier::reject_recursive_types(T)]
pub struct ExQueue<T, const N: usize>(heapless::spsc::Queue<T, N>);

/// The sequences that wait in the queue, the next to leave first.
pub uninterp spec fn unprog_items(q: heapless::Deque<AgcUnprogSeq, 8>) -> Seq<AgcUnprogSeq>;

/// The messages that wait in the queue, the next to leave first.
pub uninterp spec fn message_items(q: heapless::spsc::Queue<(usize, u16), 16>) -> Seq<
    (usize, u16),
>;

/// Number of sequences that the queue of unprogrammed sequences can hold.
pub const UNPROG_CAPACITY: usize = 8;

/// Number of messages that the queue of messages can hold: one less than the
/// size of its ring.
pub const MESSAGE_CAPACITY: usize = 15;

/// The queue `items` after `seq` is offered to it: `seq` joins at the back
/// while fewer than eight wait, and is dropped otherwise.
pub open spec fn unprog_offer(items: Seq<AgcUnprogSeq>, seq: AgcUnprogSeq) -> Seq<AgcUnprogSeq> {
    if items.len() < UNPROG_CAPACITY {
        items.push(seq)
    } else {
        items
    }
}

/// `heapless::Deque::new`: the new deque is empty.
#[verifier::external_body]
pub(crate) fn unprog_new() -> (q: heapless::Deque<AgcUnprogSeq, 8>)
    ensures
        unprog_items(q) == Seq::<AgcUnprogSeq>::empty(),
{
    heapless::Deque::new()
}

/// `heapless::Deque::push_back`: the item joins at the back unless the deque
/// is full; a full deque hands the item back, which is dropped here.
#[verifier::external_body]
pub(crate) fn push_unprog_seq(unprog: &mut heapless::Deque<AgcUnprogSeq, 8>, seq: AgcUnprogSeq)
    ensures
        unprog_items(*final(unprog)) == unprog_offer(unprog_items(*old(unprog)), seq),
{
    let _ = unprog.push_back(seq);
}

/// `heapless::Deque::pop_front`: the front item leaves and is returned;
/// an empty deque returns `None` and stays empty.
#[verifier::external_body]
pub(crate) fn unprog_pop(unprog: &mut heapless::Deque<AgcUnprogSeq, 8>) -> (r: Option<
    AgcUnprogSeq,
>)
    ensures
        unprog_items(*old(unprog)).len() == 0 ==> r is None && unprog_items(*final(unprog))
            == unprog_items(*old(unprog)),
        unprog_items(*old(unprog)).len() > 0 ==> r == Some(unprog_items(*old(unprog))[0])
            && unprog_items(*final(unprog)) == unprog_items(*old(unprog)).drop_first(),
{
    unprog.pop_front()
}

/// `heapless::Deque::len`: the number of items, which never exceeds the
/// capacity of eight.
#[verifier::external_body]
pub(crate) fn unprog_len(unprog: &heapless::Deque<AgcUnprogSeq, 8>) -> (r: usize)
    ensures
        r == unprog_items(*unprog).len(),
        r <= UNPROG_CAPACITY,
{
    unprog.len()
}

/// `heapless::spsc::Queue::new`: the new queue is empty.
#[verifier::external_body]
pub(crate) fn message_new() -> (q: heapless::spsc::Queue<(usize, u16), 16>)
    ensures
        message_items(q) == Seq::<(usize, u16)>::empty(),
{
    heapless::spsc::Queue::new()
}

/// `heapless::spsc::Queue::enqueue`: the item joins at the back unless the
/// queue holds its fifteen; a full queue hands the item back, which is
/// dropped here.
#[verifier::external_body]
pub(crate) fn message_enqueue(q: &mut heapless::spsc::Queue<(usize, u16), 16>, msg: (usize, u16))
    ensures
        message_items(*final(q)) == if message_items(*old(q)).len() < MESSAGE_CAPACITY {
            message_items(*old(q)).push(msg)
        } else {
            message_items(*old(q))
        },
{
    let _ = q.enqueue(msg);
}

/// `heapless::spsc::Queue::dequeue`: the front item leaves and is returned;
/// an empty queue returns `None` and stays empty.
#[verifier::external_body]
pub(crate) fn message_dequeue(q: &mut heapless::spsc::Queue<(usize, u16), 16>) -> (r: Option<
    (usize, u16),
>)
    ensures
        message_items(*old(q)).len() == 0 ==> r is None && message_items(*final(q))
            == message_items(*old(q)),
        message_items(*old(q)).len() > 0 ==> r == Some(message_items(*old(q))[0])
            && message_items(*final(q)) == message_items(*old(q)).drop_first(),
{
    q.dequeue()
}

/// `heapless::spsc::Queue::len`: the number of items, which never exceeds
/// the capacity of fifteen.
#[verifier::external_body]
pub(crate) fn message_len(q: &heapless::spsc::Queue<(usize, u16), 16>) -> (r: usize)
    ensures
        r == message_items(*q).len(),
        r <= MESSAGE_CAPACITY,
{
    q.len()
}

} // verus!
