//! Barrier derivation: from the access a resource was last put to and the
//! access a pass asks for, to the transition that must be recorded.
//!
//! The stored access is always advanced, also when no barrier is needed, so
//! that a later pass computes its transition from the right state.

use crate::access::{
    BufferBarrierFlags, BufferResourceAccess, ImageBarrierFlags, ImageResourceAccess,
};
use vstd::prelude::*;

verus! {

/// A transition of one buffer: what to wait for, and what then becomes
/// possible.
#[derive(Debug, Eq, PartialEq, Copy, Clone, Structural)]
pub struct BufferBarrier {
    pub src: BufferBarrierFlags,
    pub dst: BufferBarrierFlags,
}

/// A transition of one image, layouts included.
#[derive(Debug, Eq, PartialEq, Copy, Clone, Structural)]
pub struct ImageBarrier {
    pub src: ImageBarrierFlags,
    pub dst: ImageBarrierFlags,
}

/// Whether going from `last` to `next` calls for a barrier: always, except
/// from unused to unused.
pub open spec fn buffer_needs_barrier(
    last: BufferResourceAccess,
    next: BufferResourceAccess,
) -> bool {
    !(last is Unused && next is Unused)
}

/// The barrier between two buffer accesses, if one is needed.
pub open spec fn buffer_barrier_between(
    last: BufferResourceAccess,
    next: BufferResourceAccess,
) -> Option<BufferBarrier> {
    if buffer_needs_barrier(last, next) {
        Some(BufferBarrier { src: last.barrier_flags(), dst: next.barrier_flags() })
    } else {
        None
    }
}

/// Whether going from `last` to `next` calls for a barrier: always, except
/// from unused to unused.
pub open spec fn image_needs_barrier(last: ImageResourceAccess, next: ImageResourceAccess) -> bool {
    !(last is Unused && next is Unused)
}

/// The barrier between two image accesses, if one is needed.
pub open spec fn image_barrier_between(
    last: ImageResourceAccess,
    next: ImageResourceAccess,
    is_color_image: bool,
) -> Option<ImageBarrier> {
    if image_needs_barrier(last, next) {
        Some(
            ImageBarrier {
                src: last.barrier_flags(is_color_image),
                dst: next.barrier_flags(is_color_image),
            },
        )
    } else {
        None
    }
}

/// Computes the barrier that must precede `next` on a buffer last put to
/// `last`.
pub fn buffer_transition(last: BufferResourceAccess, next: BufferResourceAccess) -> (r: Option<
    BufferBarrier,
>)
    ensures
        r == buffer_barrier_between(last, next),
{
    if last == BufferResourceAccess::Unused && next == BufferResourceAccess::Unused {
        None
    } else {
        Some(BufferBarrier { src: last.get_barrier_flags(), dst: next.get_barrier_flags() })
    }
}

/// Computes the barrier that must precede `next` on an image last put to
/// `last`.
pub fn image_transition(
    last: ImageResourceAccess,
    next: ImageResourceAccess,
    is_color_image: bool,
) -> (r: Option<ImageBarrier>)
    ensures
        r == image_barrier_between(last, next, is_color_image),
{
    if last == ImageResourceAccess::Unused && next == ImageResourceAccess::Unused {
        None
    } else {
        Some(
            ImageBarrier {
                src: last.get_barrier_flags(is_color_image),
                dst: next.get_barrier_flags(is_color_image),
            },
        )
    }
}

/// Reads the stored access of a buffer, overwrites it with `next`, and
/// returns the barrier between the two.
pub fn record_buffer_access(last: &mut BufferResourceAccess, next: BufferResourceAccess) -> (r:
    Option<BufferBarrier>)
    ensures
        r == buffer_barrier_between(*old(last), next),
        *final(last) == next,
{
    let barrier = buffer_transition(*last, next);
    *last = next;
    barrier
}

/// Reads the stored access of an image, overwrites it with `next`, and
/// returns the barrier between the two.
pub fn record_image_access(
    last: &mut ImageResourceAccess,
    next: ImageResourceAccess,
    is_color_image: bool,
) -> (r: Option<ImageBarrier>)
    ensures
        r == image_barrier_between(*old(last), next, is_color_image),
        *final(last) == next,
{
    let barrier = image_transition(*last, next, is_color_image);
    *last = next;
    barrier
}

/// The access stored after `accesses` have been fed in, starting from
/// `initial`.
pub open spec fn buffer_access_after(
    initial: BufferResourceAccess,
    accesses: Seq<BufferResourceAccess>,
) -> BufferResourceAccess {
    if accesses.len() == 0 {
        initial
    } else {
        accesses.last()
    }
}

/// The barriers emitted while `accesses` are fed in one after another,
/// starting from `initial`.
pub open spec fn buffer_barriers(
    initial: BufferResourceAccess,
    accesses: Seq<BufferResourceAccess>,
) -> Seq<BufferBarrier>
    decreases accesses.len(),
{
    if accesses.len() == 0 {
        Seq::empty()
    } else {
        let before = accesses.drop_last();
        let earlier = buffer_barriers(initial, before);
        match buffer_barrier_between(buffer_access_after(initial, before), accesses.last()) {
            Some(barrier) => earlier.push(barrier),
            None => earlier,
        }
    }
}

/// How many of the steps of `accesses` call for a barrier.
pub open spec fn buffer_barrier_steps(
    initial: BufferResourceAccess,
    accesses: Seq<BufferResourceAccess>,
) -> nat
    decreases accesses.len(),
{
    if accesses.len() == 0 {
        0
    } else {
        let before = accesses.drop_last();
        let step: nat = if buffer_needs_barrier(
            buffer_access_after(initial, before),
            accesses.last(),
        ) {
            1
        } else {
            0
        };
        buffer_barrier_steps(initial, before) + step
    }
}

/// Feeding a sequence of accesses emits exactly one barrier for each step
/// that is not unused-to-unused, never more than one per access.
pub proof fn lemma_buffer_barrier_count(
    initial: BufferResourceAccess,
    accesses: Seq<BufferResourceAccess>,
)
    ensures
        buffer_barriers(initial, accesses).len() == buffer_barrier_steps(initial, accesses),
        buffer_barriers(initial, accesses).len() <= accesses.len(),
    decreases accesses.len(),
{
    if accesses.len() > 0 {
        lemma_buffer_barrier_count(initial, accesses.drop_last());
    }
}

/// The last barrier emitted for a sequence whose final step needs one leads
/// from the flags of the access before it to the flags of the final access.
pub proof fn lemma_buffer_last_barrier(
    initial: BufferResourceAccess,
    accesses: Seq<BufferResourceAccess>,
)
    requires
        accesses.len() > 0,
        buffer_needs_barrier(
            buffer_access_after(initial, accesses.drop_last()),
            accesses.last(),
        ),
    ensures
        buffer_barriers(initial, accesses).len() > 0,
        buffer_barriers(initial, accesses).last().src == buffer_access_after(
            initial,
            accesses.drop_last(),
        ).barrier_flags(),
        buffer_barriers(initial, accesses).last().dst == accesses.last().barrier_flags(),
{
}

/// Feeds `accesses` to the tracker of one buffer whose stored access is
/// `initial`. Returns the barriers emitted, in order, and the access stored
/// at the end.
pub fn track_buffer_accesses(initial: BufferResourceAccess, accesses: &[BufferResourceAccess]) -> (r:
    (Vec<BufferBarrier>, BufferResourceAccess))
    ensures
        r.0@ == buffer_barriers(initial, accesses@),
        r.1 == buffer_access_after(initial, accesses@),
{
    let mut barriers: Vec<BufferBarrier> = Vec::new();
    let mut last = initial;
    let mut i: usize = 0;
    while i < accesses.len()
        invariant
            i <= accesses.len(),
            barriers@ == buffer_barriers(initial, accesses@.take(i as int)),
            last == buffer_access_after(initial, accesses@.take(i as int)),
        decreases accesses.len() - i,
    {
        proof {
            assert(accesses@.take(i + 1).drop_last() == accesses@.take(i as int));
        }
        match record_buffer_access(&mut last, accesses[i]) {
            Some(barrier) => {
                barriers.push(barrier);
            },
            None => {},
        }
        i += 1;
    }
    proof {
        assert(accesses@.take(i as int) == accesses@);
    }
    (barriers, last)
}

/// The access stored after `accesses` have been fed in, starting from
/// `initial`.
pub open spec fn image_access_after(
    initial: ImageResourceAccess,
    accesses: Seq<ImageResourceAccess>,
) -> ImageResourceAccess {
    if accesses.len() == 0 {
        initial
    } else {
        accesses.last()
    }
}

/// The barriers emitted while `accesses` are fed in one after another,
/// starting from `initial`.
pub open spec fn image_barriers(
    initial: ImageResourceAccess,
    accesses: Seq<ImageResourceAccess>,
    is_color_image: bool,
) -> Seq<ImageBarrier>
    decreases accesses.len(),
{
    if accesses.len() == 0 {
        Seq::empty()
    } else {
        let before = accesses.drop_last();
        let earlier = image_barriers(initial, before, is_color_image);
        match image_barrier_between(
            image_access_after(initial, before),
            accesses.last(),
            is_color_image,
        ) {
            Some(barrier) => earlier.push(barrier),
            None => earlier,
        }
    }
}

/// How many of the steps of `accesses` call for a barrier.
pub open spec fn image_barrier_steps(
    initial: ImageResourceAccess,
    accesses: Seq<ImageResourceAccess>,
) -> nat
    decreases accesses.len(),
{
    if accesses.len() == 0 {
        0
    } else {
        let before = accesses.drop_last();
        let step: nat = if image_needs_barrier(image_access_after(initial, before), accesses.last()) {
            1
        } else {
            0
        };
        image_barrier_steps(initial, before) + step
    }
}

/// Feeding a sequence of accesses emits exactly one barrier for each step
/// that is not unused-to-unused, never more than one per access.
pub proof fn lemma_image_barrier_count(
    initial: ImageResourceAccess,
    accesses: Seq<ImageResourceAccess>,
    is_color_image: bool,
)
    ensures
        image_barriers(initial, accesses, is_color_image).len() == image_barrier_steps(
            initial,
            accesses,
        ),
        image_barriers(initial, accesses, is_color_image).len() <= accesses.len(),
    decreases accesses.len(),
{
    if accesses.len() > 0 {
        lemma_image_barrier_count(initial, accesses.drop_last(), is_color_image);
    }
}

/// Consecutive image barriers chain: each leaves the image in the layout the
/// next one starts from, unless an unused-to-unused step lies between them.
pub proof fn lemma_image_barrier_layout(
    last: ImageResourceAccess,
    next: ImageResourceAccess,
    is_color_image: bool,
)
    requires
        image_needs_barrier(last, next),
    ensures
        image_barrier_between(last, next, is_color_image) is Some,
        image_barrier_between(last, next, is_color_image)->0.src.layout == last.layout(
            is_color_image,
        ),
        image_barrier_between(last, next, is_color_image)->0.dst.layout == next.layout(
            is_color_image,
        ),
{
}

/// Feeds `accesses` to the tracker of one image whose stored access is
/// `initial`. Returns the barriers emitted, in order, and the access stored
/// at the end.
pub fn track_image_accesses(
    initial: ImageResourceAccess,
    accesses: &[ImageResourceAccess],
    is_color_image: bool,
) -> (r: (Vec<ImageBarrier>, ImageResourceAccess))
    ensures
        r.0@ == image_barriers(initial, accesses@, is_color_image),
        r.1 == image_access_after(initial, accesses@),
{
    let mut barriers: Vec<ImageBarrier> = Vec::new();
    let mut last = initial;
    let mut i: usize = 0;
    while i < accesses.len()
        invariant
            i <= accesses.len(),
            barriers@ == image_barriers(initial, accesses@.take(i as int), is_color_image),
            last == image_access_after(initial, accesses@.take(i as int)),
        decreases accesses.len() - i,
    {
        proof {
            assert(accesses@.take(i + 1).drop_last() == accesses@.take(i as int));
        }
        match record_image_access(&mut last, accesses[i], is_color_image) {
            Some(barrier) => {
                barriers.push(barrier);
            },
            None => {},
        }
        i += 1;
    }
    proof {
        assert(accesses@.take(i as int) == accesses@);
    }
    (barriers, last)
}

} // verus!
