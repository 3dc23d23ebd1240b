//! The outbound message queue of a connection.
//!
//! The queue itself is crossbeam's unbounded segmented FIFO; the
//! contracts here state its behaviour over [`queue_buffers`], the
//! insertion-ordered sequence of byte buffers it holds.

use vstd::prelude::*;
use crossbeam_queue::SegQueue;

verus! {

#[verifier::external_type_specification]
#[verifier::external_body]
#[verifier::reject_recursive_types(T)]
pub struct ExSegQueue<T>(SegQueue<T>);

/// The byte buffers held by an outbound message queue, oldest first.
pub uninterp spec fn queue_buffers(q: SegQueue<Vec<u8>>) -> Seq<Seq<u8>>;

/// Relies on crossbeam_queue::SegQueue::new: a freshly created queue is
/// empty.
#[verifier::external_body]
pub fn new_message_queue() -> (q: SegQueue<Vec<u8>>)
    ensures
        queue_buffers(q) == Seq::<Seq<u8>>::empty(),
{
    SegQueue::new()
}

/// Relies on crossbeam_queue::SegQueue::push: pushes back an element at
/// the tail.
#[verifier::external_body]
pub fn queue_push(q: &mut SegQueue<Vec<u8>>, message: Vec<u8>)
    ensures
        queue_buffers(*final(q)) == queue_buffers(*old(q)).push(message@),
{
    q.push(message);
}

/// Relies on crossbeam_queue::SegQueue::pop: pops the element at the
/// head, or `None` exactly when the queue is empty.
#[verifier::external_body]
pub fn queue_pop(q: &mut SegQueue<Vec<u8>>) -> (r: Option<Vec<u8>>)
    ensures
        match r {
            Some(m) => queue_buffers(*old(q)).len() > 0 && m@ == queue_buffers(*old(q))[0]
                && queue_buffers(*final(q)) == queue_buffers(*old(q)).skip(1),
            None => queue_buffers(*old(q)).len() == 0 && queue_buffers(*final(q)) == queue_buffers(
                *old(q),
            ),
        },
{
    q.pop()
}

/// Relies on crossbeam_queue::SegQueue::is_empty.
#[verifier::external_body]
pub fn queue_is_empty(q: &SegQueue<Vec<u8>>) -> (r: bool)
    ensures
        r <==> queue_buffers(*q).len() == 0,
{
    q.is_empty()
}

} // verus!
