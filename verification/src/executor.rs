//! Execution planning: from a graph and the state of its resources to the
//! barriers that must be recorded before each pass.
//!
//! Passes run strictly in declared order. Before a pass, every resource it
//! declares goes from the access it was last put to, to the access the pass
//! asks for: one barrier per declaration, none where both are unused. The
//! access stored for the resource is overwritten either way. A persistent
//! resource keeps its stored access in the manager, across frames; a transient
//! or swapchain resource keeps it only for the frame.

use crate::access::{BufferResourceAccess, ImageBarrierFlags, ImageResourceAccess};
use crate::barrier::{
    buffer_barrier_between, buffer_transition, image_barrier_between, image_transition,
    BufferBarrier, ImageBarrier,
};
use crate::error::Error;
use crate::flags::{ACCESS_NONE, LAYOUT_PRESENT_SRC, STAGE_BOTTOM_OF_PIPE};
use crate::render_graph::{
    AcquiredSwapchainImage, Allocation, BufferGraphResource, BufferResourceDescription,
    ImageGraphResource, ImageResourceDescription, RecordFn, RenderGraph, RenderPass,
};
use crate::resource::{
    Buffer, BufferHandle, BufferKey, BufferResource, BufferTempResource, Image, ImageHandle,
    ImageKey, ImageResource, ImageTempResource, Resource,
};
use crate::resource_manager::{buffer_at, image_at, ManagerState, ResourceManager};
use vstd::prelude::*;

verus! {

/// Where the access last made of a buffer is stored.
#[derive(Debug, Copy, Clone, PartialEq, Eq, Structural)]
pub enum BufferCell {
    /// With the persistent buffer, in the manager.
    Persistent(BufferKey),
    /// With the resolved buffer of the graph at this index.
    Frame(usize),
}

/// Where the access last made of an image is stored.
#[derive(Debug, Copy, Clone, PartialEq, Eq, Structural)]
pub enum ImageCell {
    /// With the persistent image, in the manager.
    Persistent(ImageKey),
    /// With the resolved image of the graph at this index.
    Frame(usize),
}

/// One buffer barrier of a batch, with the buffer it applies to.
#[derive(Debug, Copy, Clone, PartialEq, Eq, Structural)]
pub struct BufferBarrierCommand {
    pub buffer: Buffer,
    pub barrier: BufferBarrier,
}

/// One image barrier of a batch, with the image it applies to.
#[derive(Debug, Copy, Clone, PartialEq, Eq, Structural)]
pub struct ImageBarrierCommand {
    pub image: Image,
    pub barrier: ImageBarrier,
}

/// The state that planning reads and advances.
pub struct FrameState {
    pub manager: ManagerState,
    /// The resolved buffers of the graph, by index.
    pub buffers: Seq<BufferTempResource>,
    /// The resolved images of the graph, by index.
    pub images: Seq<ImageTempResource>,
}

/// What is recorded for one pass, as mathematical values.
pub struct PassPlanView {
    /// Position of the pass in execution order.
    pub pass_index: nat,
    pub buffer_barriers: Seq<BufferBarrierCommand>,
    pub image_barriers: Seq<ImageBarrierCommand>,
    pub record: Option<RecordFn>,
}

/// What is recorded for one pass: the batched barrier, then the pass's own
/// commands.
#[derive(Debug, Clone)]
pub struct PassPlan {
    /// Position of the pass in execution order.
    pub pass_index: usize,
    pub buffer_barriers: Vec<BufferBarrierCommand>,
    pub image_barriers: Vec<ImageBarrierCommand>,
    pub record: Option<RecordFn>,
}

impl View for PassPlan {
    type V = PassPlanView;

    open spec fn view(&self) -> PassPlanView {
        PassPlanView {
            pass_index: self.pass_index as nat,
            buffer_barriers: self.buffer_barriers@,
            image_barriers: self.image_barriers@,
            record: self.record,
        }
    }
}

/// The transition of a used swapchain image to the presentation layout.
#[derive(Debug, Copy, Clone, PartialEq, Eq, Structural)]
pub struct PresentCommand {
    /// Index of the image in the graph.
    pub image_index: usize,
    /// The acquired swapchain image it stands for, by its place in the list.
    pub slot: usize,
    pub command: ImageBarrierCommand,
}

/// What is recorded for a frame.
#[derive(Debug, Clone)]
pub struct FramePlan {
    pub passes: Vec<PassPlan>,
    pub present: Vec<PresentCommand>,
}

/// The views of a list of pass plans.
pub open spec fn pass_plan_views(plans: Seq<PassPlan>) -> Seq<PassPlanView> {
    Seq::new(plans.len(), |i: int| plans[i]@)
}

/// The cell behind a buffer handle: a persistent key stands for itself; an
/// index into the graph stands for the persistent buffer that the graph
/// declares there, or for the resolved buffer at that index. An index beyond
/// the graph stands for nothing.
pub open spec fn buffer_cell(buffers: Seq<BufferGraphResource>, handle: BufferHandle) -> Option<
    BufferCell,
> {
    match handle {
        BufferHandle::Persistent(key) => Some(BufferCell::Persistent(key)),
        BufferHandle::Transient(index) => if index < buffers.len() {
            match buffers[index as int].description {
                BufferResourceDescription::Persistent(key) => Some(BufferCell::Persistent(key)),
                BufferResourceDescription::Transient(_) => Some(BufferCell::Frame(index)),
            }
        } else {
            None
        },
    }
}

/// The cell behind an image handle, in the same way.
pub open spec fn image_cell(images: Seq<ImageGraphResource>, handle: ImageHandle) -> Option<
    ImageCell,
> {
    match handle {
        ImageHandle::Persistent(key) => Some(ImageCell::Persistent(key)),
        ImageHandle::Transient(index) => if index < images.len() {
            match images[index as int].description {
                ImageResourceDescription::Persistent(key) => Some(ImageCell::Persistent(key)),
                _ => Some(ImageCell::Frame(index)),
            }
        } else {
            None
        },
    }
}

/// The buffer and stored access in a cell, if the cell exists.
pub open spec fn buffer_in(state: FrameState, cell: BufferCell) -> Option<BufferTempResource> {
    match cell {
        BufferCell::Persistent(key) => match buffer_at(state.manager, key) {
            Some(b) => Some(BufferTempResource { buffer: b.buffer, last_access: b.last_access }),
            None => None,
        },
        BufferCell::Frame(index) => if index < state.buffers.len() {
            Some(state.buffers[index as int])
        } else {
            None
        },
    }
}

/// The image and stored access in a cell, if the cell exists.
pub open spec fn image_in(state: FrameState, cell: ImageCell) -> Option<ImageTempResource> {
    match cell {
        ImageCell::Persistent(key) => match image_at(state.manager, key) {
            Some(i) => Some(ImageTempResource { image: i.image, last_usage: i.last_usage }),
            None => None,
        },
        ImageCell::Frame(index) => if index < state.images.len() {
            Some(state.images[index as int])
        } else {
            None
        },
    }
}

/// The state after `access` is stored in a buffer cell. A cell that does not
/// exist changes nothing.
pub open spec fn with_buffer_access(
    state: FrameState,
    cell: BufferCell,
    access: BufferResourceAccess,
) -> FrameState {
    match buffer_in(state, cell) {
        Some(found) => match cell {
            BufferCell::Persistent(key) => FrameState {
                manager: ManagerState {
                    buffers: state.manager.buffers.insert(
                        key.0,
                        Resource::Buffer(
                            BufferResource { buffer: found.buffer, last_access: access },
                        ),
                    ),
                    ..state.manager
                },
                ..state
            },
            BufferCell::Frame(index) => FrameState {
                buffers: state.buffers.update(
                    index as int,
                    BufferTempResource { buffer: found.buffer, last_access: access },
                ),
                ..state
            },
        },
        None => state,
    }
}

/// The state after `access` is stored in an image cell. A cell that does not
/// exist changes nothing.
pub open spec fn with_image_access(
    state: FrameState,
    cell: ImageCell,
    access: ImageResourceAccess,
) -> FrameState {
    match image_in(state, cell) {
        Some(found) => match cell {
            ImageCell::Persistent(key) => FrameState {
                manager: ManagerState {
                    images: state.manager.images.insert(
                        key.0,
                        Resource::Image(ImageResource { image: found.image, last_usage: access }),
                    ),
                    ..state.manager
                },
                ..state
            },
            ImageCell::Frame(index) => FrameState {
                images: state.images.update(
                    index as int,
                    ImageTempResource { image: found.image, last_usage: access },
                ),
                ..state
            },
        },
        None => state,
    }
}

/// The barrier for one declared buffer usage: from the access stored in the
/// cell to the access declared.
pub open spec fn buffer_usage_barrier(
    state: FrameState,
    cell: Option<BufferCell>,
    access: BufferResourceAccess,
) -> Option<BufferBarrierCommand> {
    match cell {
        Some(cell) => match buffer_in(state, cell) {
            Some(found) => match buffer_barrier_between(found.last_access, access) {
                Some(barrier) => Some(BufferBarrierCommand { buffer: found.buffer, barrier }),
                None => None,
            },
            None => None,
        },
        None => None,
    }
}

/// The barrier for one declared image usage: from the access stored in the
/// cell to the access declared. Whether the image counts as a colour image
/// follows from its format.
pub open spec fn image_usage_barrier(
    state: FrameState,
    cell: Option<ImageCell>,
    access: ImageResourceAccess,
) -> Option<ImageBarrierCommand> {
    match cell {
        Some(cell) => match image_in(state, cell) {
            Some(found) => match image_barrier_between(
                found.last_usage,
                access,
                !found.image.format.depth_stencil(),
            ) {
                Some(barrier) => Some(ImageBarrierCommand { image: found.image, barrier }),
                None => None,
            },
            None => None,
        },
        None => None,
    }
}

/// The state after one declared usage.
pub open spec fn after_buffer_usage(
    state: FrameState,
    cell: Option<BufferCell>,
    access: BufferResourceAccess,
) -> FrameState {
    match cell {
        Some(cell) => with_buffer_access(state, cell, access),
        None => state,
    }
}

/// The state after one declared usage.
pub open spec fn after_image_usage(
    state: FrameState,
    cell: Option<ImageCell>,
    access: ImageResourceAccess,
) -> FrameState {
    match cell {
        Some(cell) => with_image_access(state, cell, access),
        None => state,
    }
}

/// The state and the buffer barriers after the declared buffer usages of a
/// pass have been gone through in order.
pub open spec fn plan_buffer_usages(
    state: FrameState,
    buffers: Seq<BufferGraphResource>,
    usages: Seq<(BufferHandle, BufferResourceAccess)>,
) -> (FrameState, Seq<BufferBarrierCommand>)
    decreases usages.len(),
{
    if usages.len() == 0 {
        (state, Seq::empty())
    } else {
        let (before, earlier) = plan_buffer_usages(state, buffers, usages.drop_last());
        let (handle, access) = usages.last();
        let cell = buffer_cell(buffers, handle);
        let after = after_buffer_usage(before, cell, access);
        match buffer_usage_barrier(before, cell, access) {
            Some(command) => (after, earlier.push(command)),
            None => (after, earlier),
        }
    }
}

/// The state and the image barriers after the declared image usages of a
/// pass have been gone through in order.
pub open spec fn plan_image_usages(
    state: FrameState,
    images: Seq<ImageGraphResource>,
    usages: Seq<(ImageHandle, ImageResourceAccess)>,
) -> (FrameState, Seq<ImageBarrierCommand>)
    decreases usages.len(),
{
    if usages.len() == 0 {
        (state, Seq::empty())
    } else {
        let (before, earlier) = plan_image_usages(state, images, usages.drop_last());
        let (handle, access) = usages.last();
        let cell = image_cell(images, handle);
        let after = after_image_usage(before, cell, access);
        match image_usage_barrier(before, cell, access) {
            Some(command) => (after, earlier.push(command)),
            None => (after, earlier),
        }
    }
}

/// The state after a pass and what is recorded for it: the barriers of its
/// buffers, in declared order, then those of its images.
pub open spec fn plan_pass(
    state: FrameState,
    buffers: Seq<BufferGraphResource>,
    images: Seq<ImageGraphResource>,
    pass: RenderPass,
    pass_index: nat,
) -> (FrameState, PassPlanView) {
    let (with_buffers, buffer_barriers) = plan_buffer_usages(state, buffers, pass.buffer_usages@);
    let (with_images, image_barriers) = plan_image_usages(with_buffers, images, pass.image_usages@);
    (
        with_images,
        PassPlanView { pass_index, buffer_barriers, image_barriers, record: pass.build_cmd_fn },
    )
}

/// The state after the passes have run in order, and what is recorded for
/// each.
pub open spec fn plan_passes(
    state: FrameState,
    buffers: Seq<BufferGraphResource>,
    images: Seq<ImageGraphResource>,
    passes: Seq<RenderPass>,
) -> (FrameState, Seq<PassPlanView>)
    decreases passes.len(),
{
    if passes.len() == 0 {
        (state, Seq::empty())
    } else {
        let (before, earlier) = plan_passes(state, buffers, images, passes.drop_last());
        let (after, plan) = plan_pass(
            before,
            buffers,
            images,
            passes.last(),
            (passes.len() - 1) as nat,
        );
        (after, earlier.push(plan))
    }
}

/// The stage, access and layout an image is brought to for presentation.
pub open spec fn present_flags() -> ImageBarrierFlags {
    ImageBarrierFlags {
        stage_mask: STAGE_BOTTOM_OF_PIPE,
        access_flags: ACCESS_NONE,
        layout: LAYOUT_PRESENT_SRC,
    }
}

/// The transition to presentation of graph image `index`, if it is a
/// swapchain image that the frame has used.
pub open spec fn present_command(
    resolved: Seq<ImageTempResource>,
    images: Seq<ImageGraphResource>,
    index: int,
) -> Option<PresentCommand> {
    if 0 <= index < images.len() && index < resolved.len() {
        match images[index].description {
            ImageResourceDescription::Swapchain(slot) => {
                let found = resolved[index];
                if found.last_usage is Unused {
                    None
                } else {
                    Some(
                        PresentCommand {
                            image_index: index as usize,
                            slot,
                            command: ImageBarrierCommand {
                                image: found.image,
                                barrier: ImageBarrier {
                                    src: found.last_usage.barrier_flags(
                                        !found.image.format.depth_stencil(),
                                    ),
                                    dst: present_flags(),
                                },
                            },
                        },
                    )
                }
            },
            _ => None,
        }
    } else {
        None
    }
}

/// The transitions to presentation of the first `count` images of the graph.
pub open spec fn present_commands(
    resolved: Seq<ImageTempResource>,
    images: Seq<ImageGraphResource>,
    count: nat,
) -> Seq<PresentCommand>
    decreases count,
{
    if count == 0 {
        Seq::empty()
    } else {
        let earlier = present_commands(resolved, images, (count - 1) as nat);
        match present_command(resolved, images, count - 1) {
            Some(command) => earlier.push(command),
            None => earlier,
        }
    }
}

/// Every handle that the usages declare stands for a cell that exists.
pub open spec fn buffer_usages_exist(
    state: FrameState,
    buffers: Seq<BufferGraphResource>,
    usages: Seq<(BufferHandle, BufferResourceAccess)>,
) -> bool {
    forall|j: int|
        0 <= j < usages.len() ==> {
            let cell = buffer_cell(buffers, (#[trigger] usages[j]).0);
            cell is Some && buffer_in(state, cell->0) is Some
        }
}

/// No two usages stand for the same cell: no buffer is declared twice,
/// neither under one handle nor under two handles that name the same buffer.
pub open spec fn buffer_cells_distinct(
    buffers: Seq<BufferGraphResource>,
    usages: Seq<(BufferHandle, BufferResourceAccess)>,
) -> bool {
    forall|j: int, k: int|
        0 <= j < k < usages.len() ==> buffer_cell(buffers, (#[trigger] usages[j]).0) != buffer_cell(
            buffers,
            (#[trigger] usages[k]).0,
        )
}

/// The buffer usages of a pass can be planned: every buffer declared
/// exists, and none is declared twice.
pub open spec fn buffer_usages_valid(
    state: FrameState,
    buffers: Seq<BufferGraphResource>,
    usages: Seq<(BufferHandle, BufferResourceAccess)>,
) -> bool {
    buffer_usages_exist(state, buffers, usages) && buffer_cells_distinct(buffers, usages)
}

/// Every handle that the usages declare stands for a cell that exists.
pub open spec fn image_usages_exist(
    state: FrameState,
    images: Seq<ImageGraphResource>,
    usages: Seq<(ImageHandle, ImageResourceAccess)>,
) -> bool {
    forall|j: int|
        0 <= j < usages.len() ==> {
            let cell = image_cell(images, (#[trigger] usages[j]).0);
            cell is Some && image_in(state, cell->0) is Some
        }
}

/// No two usages stand for the same cell: no image is declared twice,
/// neither under one handle nor under two handles that name the same image.
pub open spec fn image_cells_distinct(
    images: Seq<ImageGraphResource>,
    usages: Seq<(ImageHandle, ImageResourceAccess)>,
) -> bool {
    forall|j: int, k: int|
        0 <= j < k < usages.len() ==> image_cell(images, (#[trigger] usages[j]).0) != image_cell(
            images,
            (#[trigger] usages[k]).0,
        )
}

/// The image usages of a pass can be planned: every image declared exists,
/// and none is declared twice.
pub open spec fn image_usages_valid(
    state: FrameState,
    images: Seq<ImageGraphResource>,
    usages: Seq<(ImageHandle, ImageResourceAccess)>,
) -> bool {
    image_usages_exist(state, images, usages) && image_cells_distinct(images, usages)
}

/// Every pass can be planned: each resource it declares exists, and it
/// declares none twice.
pub open spec fn passes_valid(
    state: FrameState,
    buffers: Seq<BufferGraphResource>,
    images: Seq<ImageGraphResource>,
    passes: Seq<RenderPass>,
) -> bool {
    forall|p: int|
        0 <= p < passes.len() ==> buffer_usages_valid(
            state,
            buffers,
            (#[trigger] passes[p]).buffer_usages@,
        ) && image_usages_valid(state, images, passes[p].image_usages@)
}

/// The passes of a frame in execution order: the transfer pass, if there is
/// one, and then the passes of the graph as declared.
pub open spec fn frame_passes(transfer_pass: Option<RenderPass>, graph: RenderGraph) -> Seq<
    RenderPass,
> {
    match transfer_pass {
        Some(pass) => seq![pass] + graph.passes@,
        None => graph.passes@,
    }
}

/// What the execution of a graph comes to. The buffers and then the images
/// of the graph are resolved. If every pass declares only resources that
/// exist, and each of them once, the passes are planned in order and the
/// swapchain images that were used are brought to the presentation layout;
/// otherwise the execution ends with an invalid handle and nothing is
/// planned. The first failure ends the execution; what was registered or
/// stored until then stays.
pub open spec fn executed(
    state: ManagerState,
    transfer_pass: Option<RenderPass>,
    graph: RenderGraph,
    swapchain_images: Seq<AcquiredSwapchainImage>,
    buffer_allocations: Seq<Allocation>,
    image_allocations: Seq<Allocation>,
) -> (ManagerState, Result<(Seq<PassPlanView>, Seq<PresentCommand>), Error>) {
    let (with_buffers, buffers) = state.resolve_buffers(graph.buffers@, buffer_allocations);
    match buffers {
        Ok(buffers) => {
            let (with_images, images) = with_buffers.resolve_images(
                graph.images@,
                image_allocations,
                swapchain_images,
            );
            match images {
                Ok(images) => {
                    let start = FrameState { manager: with_images, buffers, images };
                    let passes = frame_passes(transfer_pass, graph);
                    if passes_valid(start, graph.buffers@, graph.images@, passes) {
                        let (end, plans) = plan_passes(
                            start,
                            graph.buffers@,
                            graph.images@,
                            passes,
                        );
                        (
                            end.manager,
                            Ok((plans, present_commands(end.images, graph.images@, graph.images@.len()))),
                        )
                    } else {
                        (with_images, Err(Error::InvalidHandle))
                    }
                },
                Err(e) => (with_images, Err(e)),
            }
        },
        Err(e) => (with_buffers, Err(e)),
    }
}

/// Finds the cell behind a buffer handle.
pub fn resolve_buffer_cell(buffers: &[BufferGraphResource], handle: BufferHandle) -> (r: Option<
    BufferCell,
>)
    ensures
        r == buffer_cell(buffers@, handle),
{
    match handle {
        BufferHandle::Persistent(key) => Some(BufferCell::Persistent(key)),
        BufferHandle::Transient(index) => {
            if index < buffers.len() {
                match buffers[index].description {
                    BufferResourceDescription::Persistent(key) => Some(BufferCell::Persistent(key)),
                    BufferResourceDescription::Transient(_) => Some(BufferCell::Frame(index)),
                }
            } else {
                None
            }
        },
    }
}

/// Finds the cell behind an image handle.
pub fn resolve_image_cell(images: &[ImageGraphResource], handle: ImageHandle) -> (r: Option<
    ImageCell,
>)
    ensures
        r == image_cell(images@, handle),
{
    match handle {
        ImageHandle::Persistent(key) => Some(ImageCell::Persistent(key)),
        ImageHandle::Transient(index) => {
            if index < images.len() {
                match images[index].description {
                    ImageResourceDescription::Persistent(key) => Some(ImageCell::Persistent(key)),
                    _ => Some(ImageCell::Frame(index)),
                }
            } else {
                None
            }
        },
    }
}

/// Goes through one declared buffer usage: reads the access stored in the
/// cell, overwrites it, and returns the barrier between the two.
fn plan_buffer_usage(
    manager: &mut ResourceManager,
    resolved: &mut Vec<BufferTempResource>,
    Ghost(images): Ghost<Seq<ImageTempResource>>,
    cell: Option<BufferCell>,
    access: BufferResourceAccess,
) -> (r: Option<BufferBarrierCommand>)
    requires
        old(manager).wf(),
    ensures
        final(manager).wf(),
        r == buffer_usage_barrier(
            FrameState { manager: old(manager)@, buffers: old(resolved)@, images },
            cell,
            access,
        ),
        (FrameState { manager: final(manager)@, buffers: final(resolved)@, images })
            == after_buffer_usage(
            FrameState { manager: old(manager)@, buffers: old(resolved)@, images },
            cell,
            access,
        ),
{
    let found = match cell {
        Some(BufferCell::Persistent(key)) => manager.get_and_update_buffer_resource(key, access),
        Some(BufferCell::Frame(index)) => {
            if index < resolved.len() {
                let found = resolved[index];
                resolved[index] = BufferTempResource { buffer: found.buffer, last_access: access };
                Some(found)
            } else {
                None
            }
        },
        None => None,
    };
    match found {
        Some(found) => match buffer_transition(found.last_access, access) {
            Some(barrier) => Some(BufferBarrierCommand { buffer: found.buffer, barrier }),
            None => None,
        },
        None => None,
    }
}

/// Goes through one declared image usage: reads the access stored in the
/// cell, overwrites it, and returns the barrier between the two.
fn plan_image_usage(
    manager: &mut ResourceManager,
    Ghost(buffers): Ghost<Seq<BufferTempResource>>,
    resolved: &mut Vec<ImageTempResource>,
    cell: Option<ImageCell>,
    access: ImageResourceAccess,
) -> (r: Option<ImageBarrierCommand>)
    requires
        old(manager).wf(),
    ensures
        final(manager).wf(),
        r == image_usage_barrier(
            FrameState { manager: old(manager)@, buffers, images: old(resolved)@ },
            cell,
            access,
        ),
        (FrameState { manager: final(manager)@, buffers, images: final(resolved)@ })
            == after_image_usage(
            FrameState { manager: old(manager)@, buffers, images: old(resolved)@ },
            cell,
            access,
        ),
{
    let found = match cell {
        Some(ImageCell::Persistent(key)) => match manager.get_and_update_image_resource(
            key,
            access,
        ) {
            Some(i) => Some(ImageTempResource { image: i.image, last_usage: i.last_usage }),
            None => None,
        },
        Some(ImageCell::Frame(index)) => {
            if index < resolved.len() {
                let found = resolved[index];
                resolved[index] = ImageTempResource { image: found.image, last_usage: access };
                Some(found)
            } else {
                None
            }
        },
        None => None,
    };
    match found {
        Some(found) => match image_transition(
            found.last_usage,
            access,
            found.image.format.is_color(),
        ) {
            Some(barrier) => Some(ImageBarrierCommand { image: found.image, barrier }),
            None => None,
        },
        None => None,
    }
}

/// Plans one pass: the barriers of its declared buffers, then of its
/// declared images, each against the access stored, which it overwrites.
pub fn plan_render_pass(
    manager: &mut ResourceManager,
    resolved_buffers: &mut Vec<BufferTempResource>,
    resolved_images: &mut Vec<ImageTempResource>,
    buffers: &[BufferGraphResource],
    images: &[ImageGraphResource],
    pass: &RenderPass,
    pass_index: usize,
) -> (plan: PassPlan)
    requires
        old(manager).wf(),
    ensures
        final(manager).wf(),
        (
            FrameState {
                manager: final(manager)@,
                buffers: final(resolved_buffers)@,
                images: final(resolved_images)@,
            },
            plan@,
        ) == plan_pass(
            FrameState {
                manager: old(manager)@,
                buffers: old(resolved_buffers)@,
                images: old(resolved_images)@,
            },
            buffers@,
            images@,
            *pass,
            pass_index as nat,
        ),
{
    let ghost start = FrameState {
        manager: manager@,
        buffers: resolved_buffers@,
        images: resolved_images@,
    };
    let mut buffer_barriers: Vec<BufferBarrierCommand> = Vec::new();
    let mut j: usize = 0;
    while j < pass.buffer_usages.len()
        invariant
            j <= pass.buffer_usages.len(),
            manager.wf(),
            resolved_images@ == start.images,
            plan_buffer_usages(start, buffers@, pass.buffer_usages@.take(j as int)) == (
                FrameState {
                    manager: manager@,
                    buffers: resolved_buffers@,
                    images: resolved_images@,
                },
                buffer_barriers@,
            ),
        decreases pass.buffer_usages.len() - j,
    {
        proof {
            assert(pass.buffer_usages@.take(j + 1).drop_last() == pass.buffer_usages@.take(
                j as int,
            ));
        }
        let (handle, access) = pass.buffer_usages[j];
        let cell = resolve_buffer_cell(buffers, handle);
        match plan_buffer_usage(manager, resolved_buffers, Ghost(resolved_images@), cell, access) {
            Some(command) => {
                buffer_barriers.push(command);
            },
            None => {},
        }
        j += 1;
    }
    proof {
        assert(pass.buffer_usages@.take(j as int) == pass.buffer_usages@);
    }
    let ghost middle = FrameState {
        manager: manager@,
        buffers: resolved_buffers@,
        images: resolved_images@,
    };
    let mut image_barriers: Vec<ImageBarrierCommand> = Vec::new();
    let mut j: usize = 0;
    while j < pass.image_usages.len()
        invariant
            j <= pass.image_usages.len(),
            manager.wf(),
            resolved_buffers@ == middle.buffers,
            plan_image_usages(middle, images@, pass.image_usages@.take(j as int)) == (
                FrameState {
                    manager: manager@,
                    buffers: resolved_buffers@,
                    images: resolved_images@,
                },
                image_barriers@,
            ),
        decreases pass.image_usages.len() - j,
    {
        proof {
            assert(pass.image_usages@.take(j + 1).drop_last() == pass.image_usages@.take(j as int));
        }
        let (handle, access) = pass.image_usages[j];
        let cell = resolve_image_cell(images, handle);
        match plan_image_usage(manager, Ghost(resolved_buffers@), resolved_images, cell, access) {
            Some(command) => {
                image_barriers.push(command);
            },
            None => {},
        }
        j += 1;
    }
    proof {
        assert(pass.image_usages@.take(j as int) == pass.image_usages@);
    }
    PassPlan { pass_index, buffer_barriers, image_barriers, record: pass.build_cmd_fn }
}

/// Tests whether no two of the usages stand for the same buffer.
pub fn buffer_cells_are_distinct(
    buffers: &[BufferGraphResource],
    usages: &Vec<(BufferHandle, BufferResourceAccess)>,
) -> (r: bool)
    ensures
        r == buffer_cells_distinct(buffers@, usages@),
{
    let mut k: usize = 0;
    while k < usages.len()
        invariant
            k <= usages.len(),
            forall|a: int, b: int|
                0 <= a < b < k ==> buffer_cell(buffers@, (#[trigger] usages@[a]).0) != buffer_cell(
                    buffers@,
                    (#[trigger] usages@[b]).0,
                ),
        decreases usages.len() - k,
    {
        let cell = resolve_buffer_cell(buffers, usages[k].0);
        let mut j: usize = 0;
        while j < k
            invariant
                j <= k < usages.len(),
                cell == buffer_cell(buffers@, usages@[k as int].0),
                forall|a: int|
                    0 <= a < j ==> buffer_cell(buffers@, (#[trigger] usages@[a]).0) != cell,
            decreases k - j,
        {
            if resolve_buffer_cell(buffers, usages[j].0) == cell {
                return false;
            }
            j += 1;
        }
        k += 1;
    }
    true
}

/// Tests whether no two of the usages stand for the same image.
pub fn image_cells_are_distinct(
    images: &[ImageGraphResource],
    usages: &Vec<(ImageHandle, ImageResourceAccess)>,
) -> (r: bool)
    ensures
        r == image_cells_distinct(images@, usages@),
{
    let mut k: usize = 0;
    while k < usages.len()
        invariant
            k <= usages.len(),
            forall|a: int, b: int|
                0 <= a < b < k ==> image_cell(images@, (#[trigger] usages@[a]).0) != image_cell(
                    images@,
                    (#[trigger] usages@[b]).0,
                ),
        decreases usages.len() - k,
    {
        let cell = resolve_image_cell(images, usages[k].0);
        let mut j: usize = 0;
        while j < k
            invariant
                j <= k < usages.len(),
                cell == image_cell(images@, usages@[k as int].0),
                forall|a: int| 0 <= a < j ==> image_cell(images@, (#[trigger] usages@[a]).0) != cell,
            decreases k - j,
        {
            if resolve_image_cell(images, usages[j].0) == cell {
                return false;
            }
            j += 1;
        }
        k += 1;
    }
    true
}

/// Tests whether every buffer that the usages declare exists.
fn buffer_usages_all_exist(
    manager: &ResourceManager,
    resolved_buffers: &Vec<BufferTempResource>,
    Ghost(resolved_images): Ghost<Seq<ImageTempResource>>,
    buffers: &[BufferGraphResource],
    usages: &Vec<(BufferHandle, BufferResourceAccess)>,
) -> (r: bool)
    requires
        manager.wf(),
    ensures
        r == buffer_usages_exist(
            FrameState { manager: manager@, buffers: resolved_buffers@, images: resolved_images },
            buffers@,
            usages@,
        ),
{
    let ghost state = FrameState {
        manager: manager@,
        buffers: resolved_buffers@,
        images: resolved_images,
    };
    let mut j: usize = 0;
    while j < usages.len()
        invariant
            j <= usages.len(),
            manager.wf(),
            state == (FrameState {
                manager: manager@,
                buffers: resolved_buffers@,
                images: resolved_images,
            }),
            forall|k: int|
                0 <= k < j ==> {
                    let cell = buffer_cell(buffers@, (#[trigger] usages@[k]).0);
                    cell is Some && buffer_in(state, cell->0) is Some
                },
        decreases usages.len() - j,
    {
        let exists = match resolve_buffer_cell(buffers, usages[j].0) {
            Some(BufferCell::Persistent(key)) => manager.get_buffer(key).is_some(),
            Some(BufferCell::Frame(index)) => index < resolved_buffers.len(),
            None => false,
        };
        if !exists {
            return false;
        }
        j += 1;
    }
    true
}

/// Tests whether every image that the usages declare exists.
fn image_usages_all_exist(
    manager: &ResourceManager,
    Ghost(resolved_buffers): Ghost<Seq<BufferTempResource>>,
    resolved_images: &Vec<ImageTempResource>,
    images: &[ImageGraphResource],
    usages: &Vec<(ImageHandle, ImageResourceAccess)>,
) -> (r: bool)
    requires
        manager.wf(),
    ensures
        r == image_usages_exist(
            FrameState { manager: manager@, buffers: resolved_buffers, images: resolved_images@ },
            images@,
            usages@,
        ),
{
    let ghost state = FrameState {
        manager: manager@,
        buffers: resolved_buffers,
        images: resolved_images@,
    };
    let mut j: usize = 0;
    while j < usages.len()
        invariant
            j <= usages.len(),
            manager.wf(),
            state == (FrameState {
                manager: manager@,
                buffers: resolved_buffers,
                images: resolved_images@,
            }),
            forall|k: int|
                0 <= k < j ==> {
                    let cell = image_cell(images@, (#[trigger] usages@[k]).0);
                    cell is Some && image_in(state, cell->0) is Some
                },
        decreases usages.len() - j,
    {
        let exists = match resolve_image_cell(images, usages[j].0) {
            Some(ImageCell::Persistent(key)) => manager.get_image(key).is_some(),
            Some(ImageCell::Frame(index)) => index < resolved_images.len(),
            None => false,
        };
        if !exists {
            return false;
        }
        j += 1;
    }
    true
}

/// Tests whether a pass can be planned: whether every resource it declares
/// exists, and none is declared twice.
pub fn check_render_pass(
    manager: &ResourceManager,
    resolved_buffers: &Vec<BufferTempResource>,
    resolved_images: &Vec<ImageTempResource>,
    buffers: &[BufferGraphResource],
    images: &[ImageGraphResource],
    pass: &RenderPass,
) -> (r: bool)
    requires
        manager.wf(),
    ensures
        r == (buffer_usages_valid(
            FrameState {
                manager: manager@,
                buffers: resolved_buffers@,
                images: resolved_images@,
            },
            buffers@,
            pass.buffer_usages@,
        ) && image_usages_valid(
            FrameState {
                manager: manager@,
                buffers: resolved_buffers@,
                images: resolved_images@,
            },
            images@,
            pass.image_usages@,
        )),
{
    buffer_usages_all_exist(
        manager,
        resolved_buffers,
        Ghost(resolved_images@),
        buffers,
        &pass.buffer_usages,
    ) && buffer_cells_are_distinct(buffers, &pass.buffer_usages) && image_usages_all_exist(
        manager,
        Ghost(resolved_buffers@),
        resolved_images,
        images,
        &pass.image_usages,
    ) && image_cells_are_distinct(images, &pass.image_usages)
}

/// Lists the transitions to presentation of the swapchain images that the
/// frame has used, in the order of the graph.
pub fn plan_present(resolved_images: &Vec<ImageTempResource>, images: &[ImageGraphResource]) -> (r:
    Vec<PresentCommand>)
    ensures
        r@ == present_commands(resolved_images@, images@, images@.len()),
{
    let mut commands: Vec<PresentCommand> = Vec::new();
    let mut i: usize = 0;
    while i < images.len()
        invariant
            i <= images.len(),
            commands@ == present_commands(resolved_images@, images@, i as nat),
        decreases images.len() - i,
    {
        if i < resolved_images.len() {
            match images[i].description {
                ImageResourceDescription::Swapchain(slot) => {
                    let found = resolved_images[i];
                    if found.last_usage != ImageResourceAccess::Unused {
                        commands.push(
                            PresentCommand {
                                image_index: i,
                                slot,
                                command: ImageBarrierCommand {
                                    image: found.image,
                                    barrier: ImageBarrier {
                                        src: found.last_usage.get_barrier_flags(
                                            found.image.format.is_color(),
                                        ),
                                        dst: ImageBarrierFlags {
                                            stage_mask: STAGE_BOTTOM_OF_PIPE,
                                            access_flags: ACCESS_NONE,
                                            layout: LAYOUT_PRESENT_SRC,
                                        },
                                    },
                                },
                            },
                        );
                    }
                },
                _ => {},
            }
        }
        i += 1;
    }
    commands
}

/// Plans the execution of graphs on one queue.
#[derive(Debug, Copy, Clone, PartialEq, Eq, Structural)]
pub struct BasicRenderGraphExecutor {
    /// Family of the queue that the frames are submitted to.
    pub queue_family_index: u32,
}

impl BasicRenderGraphExecutor {
    /// An executor for the queue family `queue_family_index`.
    pub fn new(queue_family_index: u32) -> (executor: BasicRenderGraphExecutor)
        ensures
            executor.queue_family_index == queue_family_index,
    {
        BasicRenderGraphExecutor { queue_family_index }
    }

    /// Plans the execution of a graph.
    ///
    /// `buffer_allocations[i]` and `image_allocations[i]` are the device
    /// objects created for the transient buffer and image that the graph
    /// declares at index `i`. `transfer_pass`, if given, runs before every
    /// pass of the graph.
    ///
    /// Returns, for every pass in execution order, the batched barrier to
    /// record before it, and the transitions to presentation of the swapchain
    /// images used; or the first error met.
    pub fn execute_graph(
        &self,
        transfer_pass: Option<RenderPass>,
        render_graph: &RenderGraph,
        manager: &mut ResourceManager,
        swapchain_images: &[AcquiredSwapchainImage],
        buffer_allocations: &[Allocation],
        image_allocations: &[Allocation],
    ) -> (r: Result<FramePlan, Error>)
        requires
            old(manager).wf(),
        ensures
            final(manager).wf(),
            final(manager)@ == executed(
                old(manager)@,
                transfer_pass,
                *render_graph,
                swapchain_images@,
                buffer_allocations@,
                image_allocations@,
            ).0,
            r matches Ok(plan) ==> executed(
                old(manager)@,
                transfer_pass,
                *render_graph,
                swapchain_images@,
                buffer_allocations@,
                image_allocations@,
            ).1 == Ok::<(Seq<PassPlanView>, Seq<PresentCommand>), Error>(
                (pass_plan_views(plan.passes@), plan.present@),
            ),
            r matches Err(e) ==> executed(
                old(manager)@,
                transfer_pass,
                *render_graph,
                swapchain_images@,
                buffer_allocations@,
                image_allocations@,
            ).1 == Err::<(Seq<PassPlanView>, Seq<PresentCommand>), Error>(e),
    {
        let mut resolved_buffers = match manager.get_buffer_resources(
            render_graph.buffers.as_slice(),
            buffer_allocations,
        ) {
            Ok(resolved) => resolved,
            Err(e) => {
                return Err(e);
            },
        };
        let mut resolved_images = match manager.get_image_resources(
            swapchain_images,
            render_graph.images.as_slice(),
            image_allocations,
        ) {
            Ok(resolved) => resolved,
            Err(e) => {
                return Err(e);
            },
        };
        let ghost start = FrameState {
            manager: manager@,
            buffers: resolved_buffers@,
            images: resolved_images@,
        };
        let ghost all = frame_passes(transfer_pass, *render_graph);
        let ghost buffers = render_graph.buffers@;
        let ghost images = render_graph.images@;
        let offset: usize = match &transfer_pass {
            Some(_) => 1,
            None => 0,
        };

        let mut valid = match &transfer_pass {
            Some(pass) => check_render_pass(
                manager,
                &resolved_buffers,
                &resolved_images,
                render_graph.buffers.as_slice(),
                render_graph.images.as_slice(),
                pass,
            ),
            None => true,
        };
        let mut i: usize = 0;
        while valid && i < render_graph.passes.len()
            invariant
                i <= render_graph.passes.len(),
                manager.wf(),
                offset == (if transfer_pass is Some {
                    1usize
                } else {
                    0usize
                }),
                all == frame_passes(transfer_pass, *render_graph),
                buffers == render_graph.buffers@,
                images == render_graph.images@,
                start == (FrameState {
                    manager: manager@,
                    buffers: resolved_buffers@,
                    images: resolved_images@,
                }),
                valid ==> forall|p: int|
                    0 <= p < offset + i ==> buffer_usages_valid(
                        start,
                        buffers,
                        (#[trigger] all[p]).buffer_usages@,
                    ) && image_usages_valid(start, images, all[p].image_usages@),
                !valid ==> !passes_valid(start, buffers, images, all),
            decreases render_graph.passes.len() - i + (if valid {
                1int
            } else {
                0int
            }),
        {
            let ok = check_render_pass(
                manager,
                &resolved_buffers,
                &resolved_images,
                render_graph.buffers.as_slice(),
                render_graph.images.as_slice(),
                &render_graph.passes[i],
            );
            proof {
                assert(all[offset + i] == render_graph.passes@[i as int]);
            }
            if ok {
                i += 1;
            } else {
                valid = false;
            }
        }
        if !valid {
            return Err(Error::InvalidHandle);
        }

        let mut plans: Vec<PassPlan> = Vec::new();
        proof {
            assert(plan_passes(start, buffers, images, all.take(0)) == (
                start,
                Seq::<PassPlanView>::empty(),
            ));
        }
        match &transfer_pass {
            Some(pass) => {
                proof {
                    assert(all.take(1).drop_last() =~= all.take(0));
                    assert(all.take(1).last() == *pass);
                }
                let plan = plan_render_pass(
                    manager,
                    &mut resolved_buffers,
                    &mut resolved_images,
                    render_graph.buffers.as_slice(),
                    render_graph.images.as_slice(),
                    pass,
                    0,
                );
                plans.push(plan);
            },
            None => {},
        }
        let mut i: usize = 0;
        while i < render_graph.passes.len()
            invariant
                i <= render_graph.passes.len(),
                manager.wf(),
                offset == (if transfer_pass is Some {
                    1usize
                } else {
                    0usize
                }),
                all == frame_passes(transfer_pass, *render_graph),
                buffers == render_graph.buffers@,
                images == render_graph.images@,
                plan_passes(start, buffers, images, all.take(offset + i)) == (
                    FrameState {
                        manager: manager@,
                        buffers: resolved_buffers@,
                        images: resolved_images@,
                    },
                    pass_plan_views(plans@),
                ),
            decreases render_graph.passes.len() - i,
        {
            proof {
                assert(all.take(offset + i + 1).drop_last() =~= all.take(offset + i));
            }
            let plan = plan_render_pass(
                manager,
                &mut resolved_buffers,
                &mut resolved_images,
                render_graph.buffers.as_slice(),
                render_graph.images.as_slice(),
                &render_graph.passes[i],
                offset + i,
            );
            plans.push(plan);
            i += 1;
        }
        proof {
            assert(all.take(offset + i) =~= all);
        }
        let present = plan_present(&resolved_images, render_graph.images.as_slice());
        Ok(FramePlan { passes: plans, present })
    }
}

} // verus!
