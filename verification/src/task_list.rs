use vstd::prelude::*;
use crate::task::Task;

verus! {

/// The fixed-capacity vector of `heapless`, which holds the scheduler's tasks.
#[verifier::external_type_specification]
#[verifier::external_body]
#[verifier::reject_recursive_types(T)]
pub struct ExHeaplessVec<T, const N: usize>(heapless::Vec<T, N>);

/// The tasks a fixed-capacity task list holds, in order.
pub uninterp spec fn task_list(v: heapless::Vec<Task, 8>) -> Seq<Task>;

/// `heapless::Vec::new`: an empty list.
#[verifier::external_body]
pub(crate) fn new_task_list() -> (r: heapless::Vec<Task, 8>)
    ensures
        task_list(r) == Seq::<Task>::empty(),
{
    heapless::Vec::new()
}

/// `heapless::Vec::push`: appends when there is room (fewer than eight
/// tasks); hands the task back, leaving the list as it was, when full.
#[verifier::external_body]
pub(crate) fn push_task(v: &mut heapless::Vec<Task, 8>, t: Task) -> (r: Result<(), Task>)
    ensures
        task_list(*old(v)).len() < 8 ==> (r is Ok && task_list(*final(v)) == task_list(*old(v)).push(t)),
        task_list(*old(v)).len() >= 8 ==> (r == Err::<(), Task>(t) && task_list(*final(v)) == task_list(*old(v))),
{
    v.push(t)
}

} // verus!
