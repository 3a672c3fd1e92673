//! The segmented queue of `crossbeam`, which holds the identifiers of waiting wakers and the values
//! of user events.
use crossbeam::queue::SegQueue;
use vstd::prelude::*;

verus! {

/// The queue of `crossbeam`.
#[verifier::external_type_specification]
#[verifier::external_body]
#[verifier::reject_recursive_types(T)]
pub struct ExSegQueue<T>(crossbeam::queue::SegQueue<T>);

/// The items that a queue holds, the one that leaves first at the front.
pub uninterp spec fn queue_items(queue: SegQueue<usize>) -> Seq<usize>;

/// `SegQueue::new`: an empty queue.
#[verifier::external_body]
pub(crate) fn queue_new() -> (queue: SegQueue<usize>)
    ensures
        queue_items(queue) == Seq::<usize>::empty(),
{
    SegQueue::new()
}

/// `SegQueue::push`: adds an item at the back. The exclusive reference rules out that another
/// thread uses the queue meanwhile.
#[verifier::external_body]
pub(crate) fn queue_push(queue: &mut SegQueue<usize>, item: usize)
    ensures
        queue_items(*final(queue)) == queue_items(*old(queue)).push(item),
{
    queue.push(item);
}

/// `SegQueue::try_pop`: takes the item at the front, where there is one. The exclusive reference
/// rules out that another thread uses the queue meanwhile.
#[verifier::external_body]
pub(crate) fn queue_pop(queue: &mut SegQueue<usize>) -> (item: Option<usize>)
    ensures
        match item {
            Some(value) => {
                &&& queue_items(*old(queue)).len() > 0
                &&& value == queue_items(*old(queue)).first()
                &&& queue_items(*final(queue)) == queue_items(*old(queue)).drop_first()
            },
            None => {
                &&& queue_items(*old(queue)).len() == 0
                &&& queue_items(*final(queue)) == queue_items(*old(queue))
            },
        },
{
    queue.try_pop()
}

/// Takes every item, in the order in which they came.
pub fn queue_drain(queue: &mut SegQueue<usize>) -> (items: Vec<usize>)
    ensures
        items@ == queue_items(*old(queue)),
        queue_items(*final(queue)) == Seq::<usize>::empty(),
{
    let mut items: Vec<usize> = Vec::new();
    let ghost before = queue_items(*queue);
    loop
        invariant
            items@ + queue_items(*queue) == before,
        ensures
            items@ == before,
            queue_items(*queue) == Seq::<usize>::empty(),
        decreases queue_items(*queue).len(),
    {
        match queue_pop(queue) {
            Some(item) => {
                items.push(item);
            },
            None => {
                break;
            },
        }
    }
    items
}

} // verus!
