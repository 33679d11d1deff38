use vstd::prelude::*;
use crossbeam_queue::SegQueue;
use crate::monitor::MonitorUpdate;

verus! {

#[verifier::external_type_specification]
#[verifier::external_body]
#[verifier::reject_recursive_types(T)]
pub struct ExSegQueue<T>(SegQueue<T>);

/// What the update queue holds, head first.
pub uninterp spec fn update_queue_items(q: SegQueue<MonitorUpdate>) -> Seq<MonitorUpdate>;

/// Relies on `crossbeam_queue::SegQueue::new`: a fresh queue is empty.
#[verifier::external_body]
pub fn new_update_queue() -> (q: SegQueue<MonitorUpdate>)
    ensures
        update_queue_items(q) == Seq::<MonitorUpdate>::empty(),
{
    SegQueue::new()
}

/// Relies on `crossbeam_queue::SegQueue::push`: pushes an element back at the
/// queue's tail.
#[verifier::external_body]
pub fn queue_push(q: &mut SegQueue<MonitorUpdate>, u: MonitorUpdate)
    ensures
        update_queue_items(*final(q)) == update_queue_items(*old(q)).push(u),
{
    q.push(u);
}

/// Relies on `crossbeam_queue::SegQueue::pop`: pops the element at the queue's
/// head; the queue hands elements out first in, first out.
#[verifier::external_body]
pub fn queue_pop(q: &mut SegQueue<MonitorUpdate>) -> (r: Option<MonitorUpdate>)
    ensures
        update_queue_items(*old(q)).len() == 0 ==> r is None && update_queue_items(*final(q))
            == update_queue_items(*old(q)),
        update_queue_items(*old(q)).len() > 0 ==> r == Some(update_queue_items(*old(q))[0])
            && update_queue_items(*final(q)) == update_queue_items(*old(q)).drop_first(),
{
    q.pop()
}

/// Enqueue one update for the front-ends.
pub fn enqueue_monitor_update(q: &mut SegQueue<MonitorUpdate>, update: MonitorUpdate)
    ensures
        update_queue_items(*final(q)) == update_queue_items(*old(q)).push(update),
{
    queue_push(q, update);
}

/// Drain every pending update, oldest first, leaving the queue empty.
pub fn dequeue_monitor_updates(q: &mut SegQueue<MonitorUpdate>) -> (r: Vec<MonitorUpdate>)
    ensures
        r@ == update_queue_items(*old(q)),
        update_queue_items(*final(q)) == Seq::<MonitorUpdate>::empty(),
{
    let mut r: Vec<MonitorUpdate> = Vec::new();
    loop
        invariant_except_break
            r@ + update_queue_items(*q) == update_queue_items(*old(q)),
        ensures
            r@ == update_queue_items(*old(q)),
            update_queue_items(*q) == Seq::<MonitorUpdate>::empty(),
        decreases update_queue_items(*q).len(),
    {
        match queue_pop(q) {
            Some(u) => {
                r.push(u);
                proof {
                    assert(r@ + update_queue_items(*q) =~= update_queue_items(*old(q)));
                }
            },
            None => {
                proof {
                    assert(r@ =~= update_queue_items(*old(q)));
                    assert(update_queue_items(*q) =~= Seq::<MonitorUpdate>::empty());
                }
                break ;
            },
        }
    }
    r
}

} // verus!
