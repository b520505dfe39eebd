//! The conversation context: a ring buffer of turns from the `ringbuffer`
//! crate, which keeps the most recent turns up to its capacity.
use vstd::prelude::*;

use ringbuffer::AllocRingBuffer;
use ringbuffer::RingBuffer;

use crate::llm::Message;

verus! {

/// `ringbuffer::AllocRingBuffer`, a heap-allocated ring buffer of fixed
/// capacity; what it holds is seen only through `ring_items` and
/// `ring_capacity`.
#[verifier::external_type_specification]
#[verifier::external_body]
#[verifier::reject_recursive_types(T)]
pub struct ExAllocRingBuffer<T>(AllocRingBuffer<T>);

/// The turns that a context buffer holds, oldest first, each as the
/// sequence of its messages.
pub uninterp spec fn ring_items(r: AllocRingBuffer<Vec<Message>>) -> Seq<Seq<Message>>;

/// The number of turns that a context buffer was made to hold.
pub uninterp spec fn ring_capacity(r: AllocRingBuffer<Vec<Message>>) -> nat;

/// The turns held after `turn` is pushed onto a buffer holding `items` with
/// room for `capacity`: when the buffer is full the oldest turn leaves.
pub open spec fn pushed(items: Seq<Seq<Message>>, capacity: nat, turn: Seq<Message>) -> Seq<Seq<Message>> {
    if items.len() == capacity {
        items.drop_first().push(turn)
    } else {
        items.push(turn)
    }
}

/// The largest capacity asked of `ring_new`: the crate allocates the next
/// power of two of slots, and its layout computation fails (and panics)
/// once that allocation would pass `isize::MAX` bytes.
pub const MAX_CAPACITY: usize = usize::MAX / 128;

/// `AllocRingBuffer::new`: an empty buffer of the given capacity, which
/// must not be zero (the crate asserts it) nor so large that its allocation
/// cannot be laid out (the crate unwraps that).
#[verifier::external_body]
pub(crate) fn ring_new(capacity: usize) -> (r: AllocRingBuffer<Vec<Message>>)
    requires
        0 < capacity <= MAX_CAPACITY,
    ensures
        ring_items(r) == Seq::<Seq<Message>>::empty(),
        ring_capacity(r) == capacity,
{
    AllocRingBuffer::new(capacity)
}

/// `RingBuffer::enqueue` (an alias of `push`): appends the turn; when the
/// buffer already holds as many turns as its capacity, the oldest is dropped.
/// Left unsaid: the crate's read and write counters grow by one per push and
/// would overflow only after `usize::MAX` pushes.
#[verifier::external_body]
pub(crate) fn ring_enqueue(r: &mut AllocRingBuffer<Vec<Message>>, turn: Vec<Message>)
    ensures
        ring_capacity(*final(r)) == ring_capacity(*old(r)),
        ring_items(*final(r)) == pushed(ring_items(*old(r)), ring_capacity(*old(r)), turn@),
{
    r.enqueue(turn)
}

/// `RingBuffer::to_vec`: the turns in order, oldest first, each cloned
/// (the derived clone of a message copies it field by field).
#[verifier::external_body]
pub(crate) fn ring_to_vec(r: &AllocRingBuffer<Vec<Message>>) -> (v: Vec<Vec<Message>>)
    ensures
        v@.map_values(|t: Vec<Message>| t@) == ring_items(*r),
{
    r.to_vec()
}

} // verus!
