//! The nodes of the search and the queue that orders them.

use crate::decoders::crack_results::CrackResult;
use crate::decoders::Family;
use vstd::prelude::*;

verus! {

/// A candidate text of the search with the path that produced it.
#[derive(Debug)]
pub struct SearchNode {
    /// The candidate text
    pub text: String,
    /// The records of the decoders that lead from the input to the text
    pub path: Vec<CrackResult>,
    /// How many decoders lead to the text
    pub depth: usize,
    /// The score that orders the queue: higher is served first
    pub priority: u64,
    /// The family of the decoder that produced the text; none for the input
    pub produced_by: Option<Family>,
}

/// The priority of the input of the search: nothing is served before it.
pub const ROOT_PRIORITY: u64 = u64::MAX;

/// The decoder belongs to the base family of encodings.
pub open spec fn is_base(family: Family) -> bool {
    family != Family::Brainfuck && family != Family::Caesar
}

/// Whether the decoder belongs to the base family of encodings.
pub fn family_is_base(family: Family) -> (r: bool)
    ensures
        r == is_base(family),
{
    match family {
        Family::Brainfuck => false,
        Family::Caesar => false,
        _ => true,
    }
}

/// The decoder that produced a text and the one that produced the text it
/// was decoded from are akin: both belong to the base family.
pub open spec fn akin(parent: Option<Family>, child: Family) -> bool {
    match parent {
        Some(p) => is_base(p) && is_base(child),
        None => false,
    }
}

/// The score of a node.
///
/// It grows with the popularity of the decoder that produced the node (in
/// hundredths, counted up to 100), falls with the depth of the node (counted
/// up to 100), and is raised a little where the decoder is akin to the one
/// before it and where the text is, in part, a known format.
pub open spec fn score(popularity: nat, depth: nat, affinity: bool, partial_format: bool) -> u64 {
    let popular = if popularity < 100 {
        popularity
    } else {
        100
    };
    let deep = if depth < 100 {
        depth
    } else {
        100
    };
    (1000 + popular * 10 + (if affinity {
        50nat
    } else {
        0nat
    }) + (if partial_format {
        25nat
    } else {
        0nat
    }) - deep * 5) as u64
}

/// The score is monotone: more popularity never lowers it, more depth never
/// raises it, and neither bonus lowers it.
pub proof fn lemma_score_monotone(
    popularity: nat,
    more_popular: nat,
    depth: nat,
    deeper: nat,
    affinity: bool,
    partial_format: bool,
)
    requires
        popularity <= more_popular,
        depth <= deeper,
    ensures
        score(popularity, depth, affinity, partial_format) <= score(
            more_popular,
            depth,
            affinity,
            partial_format,
        ),
        score(popularity, deeper, affinity, partial_format) <= score(
            popularity,
            depth,
            affinity,
            partial_format,
        ),
        score(popularity, depth, false, partial_format) <= score(
            popularity,
            depth,
            true,
            partial_format,
        ),
        score(popularity, depth, affinity, false) <= score(popularity, depth, affinity, true),
        score(popularity, depth, affinity, partial_format) < ROOT_PRIORITY,
{
}

/// Computes the score of a node, see [`score`].
pub fn compute_score(popularity: u32, depth: usize, affinity: bool, partial_format: bool) -> (r:
    u64)
    ensures
        r == score(popularity as nat, depth as nat, affinity, partial_format),
{
    let popular: u64 = if popularity < 100 {
        popularity as u64
    } else {
        100
    };
    let deep: u64 = if depth < 100 {
        depth as u64
    } else {
        100
    };
    let mut r: u64 = 1000 + popular * 10;
    if affinity {
        r = r + 50;
    }
    if partial_format {
        r = r + 25;
    }
    r - deep * 5
}

/// The node at `i` is the one to serve next: none has a higher priority, and
/// none of those before it has the same. So the queue is served by priority,
/// and first in, first out among equals.
pub open spec fn is_next(queue: Seq<SearchNode>, i: int) -> bool {
    &&& 0 <= i < queue.len()
    &&& forall|j: int| 0 <= j < queue.len() ==> (#[trigger] queue[j]).priority <= queue[i].priority
    &&& forall|j: int| 0 <= j < i ==> (#[trigger] queue[j]).priority < queue[i].priority
}

/// The node at `i` is the one to drop when the queue is full: none has a
/// lower priority, and none of those after it has the same.
pub open spec fn is_last(queue: Seq<SearchNode>, i: int) -> bool {
    &&& 0 <= i < queue.len()
    &&& forall|j: int| 0 <= j < queue.len() ==> (#[trigger] queue[j]).priority >= queue[i].priority
    &&& forall|j: int| i < j < queue.len() ==> (#[trigger] queue[j]).priority > queue[i].priority
}

/// The index of the node to serve next.
pub fn next_index(queue: &Vec<SearchNode>) -> (i: usize)
    requires
        queue@.len() > 0,
    ensures
        is_next(queue@, i as int),
{
    let mut best: usize = 0;
    let mut j: usize = 1;
    while j < queue.len()
        invariant
            0 <= best < j <= queue.len(),
            forall|k: int| 0 <= k < j ==> (#[trigger] queue@[k]).priority <= queue@[best as int].priority,
            forall|k: int| 0 <= k < best ==> (#[trigger] queue@[k]).priority < queue@[best as int].priority,
        decreases queue.len() - j,
    {
        if queue[j].priority > queue[best].priority {
            best = j;
        }
        j += 1;
    }
    best
}

/// The index of the node to drop when the queue is full.
pub fn last_index(queue: &Vec<SearchNode>) -> (i: usize)
    requires
        queue@.len() > 0,
    ensures
        is_last(queue@, i as int),
{
    let mut worst: usize = 0;
    let mut j: usize = 1;
    while j < queue.len()
        invariant
            0 <= worst < j <= queue.len(),
            forall|k: int| 0 <= k < j ==> (#[trigger] queue@[k]).priority >= queue@[worst as int].priority,
            forall|k: int|
                worst < k < j ==> (#[trigger] queue@[k]).priority > queue@[worst as int].priority,
        decreases queue.len() - j,
    {
        if queue[j].priority <= queue[worst].priority {
            worst = j;
        }
        j += 1;
    }
    worst
}

/// Takes the node to serve next out of the queue; the others keep their
/// order.
pub fn dequeue(queue: &mut Vec<SearchNode>) -> (node: Option<SearchNode>)
    ensures
        old(queue)@.len() == 0 ==> node.is_none() && final(queue)@ == old(queue)@,
        old(queue)@.len() > 0 ==> node.is_some() && exists|i: int|
            {
                &&& #[trigger] is_next(old(queue)@, i)
                &&& node.unwrap() == old(queue)@[i]
                &&& final(queue)@ == old(queue)@.remove(i)
            },
{
    if queue.len() == 0 {
        return None;
    }
    let i = next_index(queue);
    let node = queue.remove(i);
    Some(node)
}

/// The queue `after` is the queue `before` with `node` put in under the limit
/// `limit`.
///
/// Where there is room the node goes to the end. Where the queue is full the
/// node with the lowest priority goes: the new node itself if no node of the
/// queue has a lower one, otherwise the last of those that have the lowest.
pub open spec fn enqueued(
    before: Seq<SearchNode>,
    after: Seq<SearchNode>,
    node: SearchNode,
    limit: usize,
) -> bool {
    if before.len() < limit {
        after == before.push(node)
    } else if before.len() == 0 {
        after == before
    } else {
        exists|i: int|
            {
                &&& #[trigger] is_last(before, i)
                &&& after == if before[i].priority < node.priority {
                    before.remove(i).push(node)
                } else {
                    before
                }
            }
    }
}

/// Puts a node into the queue, which holds at most `limit` nodes, see
/// [`enqueued`].
pub fn enqueue(queue: &mut Vec<SearchNode>, node: SearchNode, limit: usize)
    ensures
        enqueued(old(queue)@, final(queue)@, node, limit),
        forall|k: int|
            0 <= k < final(queue)@.len() ==> (#[trigger] final(queue)@[k]) == node || old(
                queue,
            )@.contains(final(queue)@[k]),
        final(queue)@.len() <= old(queue)@.len() + 1,
{
    if queue.len() < limit {
        queue.push(node);
        assert forall|k: int| 0 <= k < queue@.len() implies (#[trigger] queue@[k]) == node || old(
            queue,
        )@.contains(queue@[k]) by {
            if k < old(queue)@.len() {
                assert(old(queue)@[k] == queue@[k]);
            }
        }
        return;
    }
    if queue.len() == 0 {
        return;
    }
    let i = last_index(queue);
    if queue[i].priority < node.priority {
        let _ = queue.remove(i);
        queue.push(node);
        assert forall|k: int| 0 <= k < queue@.len() implies (#[trigger] queue@[k]) == node || old(
            queue,
        )@.contains(queue@[k]) by {
            if k < queue@.len() - 1 {
                if k < i {
                    assert(old(queue)@[k] == queue@[k]);
                } else {
                    assert(old(queue)@[k + 1] == queue@[k]);
                }
            }
        }
    } else {
        assert forall|k: int| 0 <= k < queue@.len() implies (#[trigger] queue@[k]) == node || old(
            queue,
        )@.contains(queue@[k]) by {
            assert(old(queue)@[k] == queue@[k]);
        }
    }
}

} // verus!
