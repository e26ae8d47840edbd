use vstd::prelude::*;

verus! {

/// How many delivery workers to spawn beside the foreground task, given the
/// `--queue` count and whether the server also listens. When it does not
/// listen, one of the workers runs in the foreground itself.
pub fn extra_workers(queue: usize, listening: bool) -> (r: usize)
    ensures
        r == if listening || queue == 0 {
            queue
        } else {
            (queue - 1) as usize
        },
{
    if listening || queue == 0 {
        queue
    } else {
        queue - 1
    }
}

} // verus!
