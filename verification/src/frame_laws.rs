//! What planning a frame leaves alone.
//!
//! Planning only ever overwrites the access stored for a resource that some
//! pass declares. It adds and removes nothing, it touches no descriptor slot
//! and no queue of the deletion ring, and it emits at most one barrier for
//! each declaration. A pass that is planned declares no resource twice, so
//! that is one barrier at most for each resource, from the access the
//! resource was put to before the pass.

use crate::access::{BufferResourceAccess, ImageResourceAccess};
use crate::executor::{
    buffer_cell, buffer_cells_distinct, buffer_in, buffer_usage_barrier, image_cell,
    image_cells_distinct, image_in, image_usage_barrier, plan_buffer_usages, plan_image_usages,
    plan_pass, plan_passes, BufferBarrierCommand, BufferCell, FrameState, ImageBarrierCommand,
    ImageCell,
};
use crate::render_graph::{BufferGraphResource, ImageGraphResource, RenderPass};
use crate::resource::{BufferHandle, BufferKey, ImageHandle, ImageKey};
use crate::resource_manager::ManagerState;
use vstd::prelude::*;

verus! {

/// Some usage declares the buffer cell `cell`.
pub open spec fn usages_name_buffer(
    buffers: Seq<BufferGraphResource>,
    usages: Seq<(BufferHandle, BufferResourceAccess)>,
    cell: BufferCell,
) -> bool {
    exists|j: int|
        0 <= j < usages.len() && buffer_cell(buffers, (#[trigger] usages[j]).0) == Some(cell)
}

/// Some usage declares the image cell `cell`.
pub open spec fn usages_name_image(
    images: Seq<ImageGraphResource>,
    usages: Seq<(ImageHandle, ImageResourceAccess)>,
    cell: ImageCell,
) -> bool {
    exists|j: int|
        0 <= j < usages.len() && image_cell(images, (#[trigger] usages[j]).0) == Some(cell)
}

/// Some pass declares the buffer cell `cell`.
pub open spec fn passes_name_buffer(
    buffers: Seq<BufferGraphResource>,
    passes: Seq<RenderPass>,
    cell: BufferCell,
) -> bool {
    exists|p: int|
        0 <= p < passes.len() && usages_name_buffer(
            buffers,
            (#[trigger] passes[p]).buffer_usages@,
            cell,
        )
}

/// Some pass declares the image cell `cell`.
pub open spec fn passes_name_image(
    images: Seq<ImageGraphResource>,
    passes: Seq<RenderPass>,
    cell: ImageCell,
) -> bool {
    exists|p: int|
        0 <= p < passes.len() && usages_name_image(
            images,
            (#[trigger] passes[p]).image_usages@,
            cell,
        )
}

/// `after` differs from `before` at most in the accesses stored for the
/// buffer cells for which `named` holds and the image cells for which
/// `named_image` holds.
pub open spec fn only_accesses_changed(
    before: FrameState,
    after: FrameState,
    named: spec_fn(BufferCell) -> bool,
    named_image: spec_fn(ImageCell) -> bool,
) -> bool {
    &&& after.manager == (ManagerState {
        buffers: after.manager.buffers,
        images: after.manager.images,
        ..before.manager
    })
    &&& after.manager.buffers.dom() == before.manager.buffers.dom()
    &&& after.manager.images.dom() == before.manager.images.dom()
    &&& after.buffers.len() == before.buffers.len()
    &&& after.images.len() == before.images.len()
    &&& forall|key: u64|
        #![trigger after.manager.buffers[key]]
        !named(BufferCell::Persistent(BufferKey(key))) ==> after.manager.buffers[key]
            == before.manager.buffers[key]
    &&& forall|key: u64|
        #![trigger after.manager.images[key]]
        !named_image(ImageCell::Persistent(ImageKey(key))) ==> after.manager.images[key]
            == before.manager.images[key]
    &&& forall|index: int|
        #![trigger after.buffers[index]]
        0 <= index < before.buffers.len() && !named(BufferCell::Frame(index as usize))
            ==> after.buffers[index] == before.buffers[index]
    &&& forall|index: int|
        #![trigger after.images[index]]
        0 <= index < before.images.len() && !named_image(ImageCell::Frame(index as usize))
            ==> after.images[index] == before.images[index]
}

/// Going through the buffer usages of a pass changes nothing but the
/// accesses stored for the buffers declared, and emits at most one barrier
/// for each declaration.
pub proof fn lemma_buffer_usages_frame(
    state: FrameState,
    buffers: Seq<BufferGraphResource>,
    usages: Seq<(BufferHandle, BufferResourceAccess)>,
)
    requires
        state.buffers.len() <= usize::MAX,
    ensures
        plan_buffer_usages(state, buffers, usages).1.len() <= usages.len(),
        only_accesses_changed(
            state,
            plan_buffer_usages(state, buffers, usages).0,
            |cell: BufferCell| usages_name_buffer(buffers, usages, cell),
            |cell: ImageCell| false,
        ),
    decreases usages.len(),
{
    let after = plan_buffer_usages(state, buffers, usages).0;
    if usages.len() > 0 {
        let before_last = usages.drop_last();
        lemma_buffer_usages_frame(state, buffers, before_last);
        assert(after.manager.buffers.dom() =~= state.manager.buffers.dom());
    }
}

/// Going through the image usages of a pass changes nothing but the
/// accesses stored for the images declared, and emits at most one barrier
/// for each declaration.
pub proof fn lemma_image_usages_frame(
    state: FrameState,
    images: Seq<ImageGraphResource>,
    usages: Seq<(ImageHandle, ImageResourceAccess)>,
)
    requires
        state.images.len() <= usize::MAX,
    ensures
        plan_image_usages(state, images, usages).1.len() <= usages.len(),
        only_accesses_changed(
            state,
            plan_image_usages(state, images, usages).0,
            |cell: BufferCell| false,
            |cell: ImageCell| usages_name_image(images, usages, cell),
        ),
    decreases usages.len(),
{
    let after = plan_image_usages(state, images, usages).0;
    if usages.len() > 0 {
        let before_last = usages.drop_last();
        lemma_image_usages_frame(state, images, before_last);
        assert(after.manager.images.dom() =~= state.manager.images.dom());
    }
}

/// Planning the passes of a frame changes nothing but the accesses stored
/// for the resources that some pass declares: every other persistent
/// resource keeps the access it was last put to, no resource is added or
/// removed, and descriptor slots, transient lists and the deletion ring are
/// as before. One plan is made for each pass, with at most one barrier for
/// each declaration of the pass.
pub proof fn lemma_planning_frame(
    state: FrameState,
    buffers: Seq<BufferGraphResource>,
    images: Seq<ImageGraphResource>,
    passes: Seq<RenderPass>,
)
    requires
        state.buffers.len() <= usize::MAX,
        state.images.len() <= usize::MAX,
    ensures
        plan_passes(state, buffers, images, passes).1.len() == passes.len(),
        forall|p: int|
            0 <= p < passes.len() ==> {
                let plan = #[trigger] plan_passes(state, buffers, images, passes).1[p];
                &&& plan.pass_index == p
                &&& plan.record == passes[p].build_cmd_fn
                &&& plan.buffer_barriers.len() <= passes[p].buffer_usages@.len()
                &&& plan.image_barriers.len() <= passes[p].image_usages@.len()
            },
        only_accesses_changed(
            state,
            plan_passes(state, buffers, images, passes).0,
            |cell: BufferCell| passes_name_buffer(buffers, passes, cell),
            |cell: ImageCell| passes_name_image(images, passes, cell),
        ),
    decreases passes.len(),
{
    if passes.len() > 0 {
        let before_last = passes.drop_last();
        let last = passes.len() - 1;
        lemma_planning_frame(state, buffers, images, before_last);
        let middle = plan_passes(state, buffers, images, before_last).0;
        let pass = passes[last];
        lemma_buffer_usages_frame(middle, buffers, pass.buffer_usages@);
        let with_buffers = plan_buffer_usages(middle, buffers, pass.buffer_usages@).0;
        lemma_image_usages_frame(with_buffers, images, pass.image_usages@);
    }
}

/// The barriers for the buffer usages of a pass, each from the access stored
/// in `state`: one for every declaration that needs one, in declared order.
pub open spec fn buffer_barriers_from(
    state: FrameState,
    buffers: Seq<BufferGraphResource>,
    usages: Seq<(BufferHandle, BufferResourceAccess)>,
) -> Seq<BufferBarrierCommand>
    decreases usages.len(),
{
    if usages.len() == 0 {
        Seq::empty()
    } else {
        let earlier = buffer_barriers_from(state, buffers, usages.drop_last());
        let (handle, access) = usages.last();
        match buffer_usage_barrier(state, buffer_cell(buffers, handle), access) {
            Some(command) => earlier.push(command),
            None => earlier,
        }
    }
}

/// The barriers for the image usages of a pass, each from the access stored
/// in `state`: one for every declaration that needs one, in declared order.
pub open spec fn image_barriers_from(
    state: FrameState,
    images: Seq<ImageGraphResource>,
    usages: Seq<(ImageHandle, ImageResourceAccess)>,
) -> Seq<ImageBarrierCommand>
    decreases usages.len(),
{
    if usages.len() == 0 {
        Seq::empty()
    } else {
        let earlier = image_barriers_from(state, images, usages.drop_last());
        let (handle, access) = usages.last();
        match image_usage_barrier(state, image_cell(images, handle), access) {
            Some(command) => earlier.push(command),
            None => earlier,
        }
    }
}

/// Where no buffer is declared twice, the buffer barriers of a pass are
/// those from the state before the pass: exactly one barrier for each buffer
/// that needs one, whatever the order of the declarations.
pub proof fn lemma_one_barrier_per_buffer(
    state: FrameState,
    buffers: Seq<BufferGraphResource>,
    usages: Seq<(BufferHandle, BufferResourceAccess)>,
)
    requires
        state.buffers.len() <= usize::MAX,
        buffer_cells_distinct(buffers, usages),
    ensures
        plan_buffer_usages(state, buffers, usages).1 == buffer_barriers_from(
            state,
            buffers,
            usages,
        ),
    decreases usages.len(),
{
    if usages.len() > 0 {
        let before_last = usages.drop_last();
        lemma_one_barrier_per_buffer(state, buffers, before_last);
        lemma_buffer_usages_frame(state, buffers, before_last);
    }
}

/// Where no image is declared twice, the image barriers of a pass are those
/// from the state before the pass: exactly one barrier for each image that
/// needs one, whatever the order of the declarations.
pub proof fn lemma_one_barrier_per_image(
    state: FrameState,
    images: Seq<ImageGraphResource>,
    usages: Seq<(ImageHandle, ImageResourceAccess)>,
)
    requires
        state.images.len() <= usize::MAX,
        image_cells_distinct(images, usages),
    ensures
        plan_image_usages(state, images, usages).1 == image_barriers_from(state, images, usages),
    decreases usages.len(),
{
    if usages.len() > 0 {
        let before_last = usages.drop_last();
        lemma_one_barrier_per_image(state, images, before_last);
        lemma_image_usages_frame(state, images, before_last);
    }
}

/// Image barriers depend on the images alone: two states that hold the same
/// images give the same barriers.
pub proof fn lemma_image_barriers_of_images(
    first: FrameState,
    second: FrameState,
    images: Seq<ImageGraphResource>,
    usages: Seq<(ImageHandle, ImageResourceAccess)>,
)
    requires
        first.manager.images == second.manager.images,
        first.images == second.images,
    ensures
        image_barriers_from(first, images, usages) == image_barriers_from(second, images, usages),
    decreases usages.len(),
{
    if usages.len() > 0 {
        lemma_image_barriers_of_images(first, second, images, usages.drop_last());
    }
}

/// Exactly one barrier per resource per pass. In a pass that declares no
/// resource twice, as every pass that is planned does, each barrier leads
/// from the access the resource was put to before the pass to the access the
/// pass declares; no barrier depends on another declaration of the pass.
pub proof fn lemma_pass_barriers_from_before(
    state: FrameState,
    buffers: Seq<BufferGraphResource>,
    images: Seq<ImageGraphResource>,
    pass: RenderPass,
    pass_index: nat,
)
    requires
        state.buffers.len() <= usize::MAX,
        state.images.len() <= usize::MAX,
        buffer_cells_distinct(buffers, pass.buffer_usages@),
        image_cells_distinct(images, pass.image_usages@),
    ensures
        plan_pass(state, buffers, images, pass, pass_index).1.buffer_barriers
            == buffer_barriers_from(state, buffers, pass.buffer_usages@),
        plan_pass(state, buffers, images, pass, pass_index).1.image_barriers
            == image_barriers_from(state, images, pass.image_usages@),
{
    lemma_one_barrier_per_buffer(state, buffers, pass.buffer_usages@);
    lemma_buffer_usages_frame(state, buffers, pass.buffer_usages@);
    let with_buffers = plan_buffer_usages(state, buffers, pass.buffer_usages@).0;
    lemma_one_barrier_per_image(with_buffers, images, pass.image_usages@);
    assert(with_buffers.manager.images =~= state.manager.images);
    assert(with_buffers.images =~= state.images);
    lemma_image_barriers_of_images(with_buffers, state, images, pass.image_usages@);
}

} // verus!
