//! The device-facing surface: creation and destruction of resources by
//! handle, pending uploads, and the submission of a frame.
//!
//! Device objects are created by the caller and handed in by their raw
//! handles; what is to be destroyed is handed back.

use crate::access::{BufferResourceAccess, Queue};
use crate::error::Error;
use crate::executor::{
    executed, pass_plan_views, BasicRenderGraphExecutor, FramePlan, PassPlanView, PresentCommand,
};
use crate::flags::BUFFER_USAGE_TRANSFER_SRC;
use crate::render_graph::{
    declare_buffer_usage, with_buffer_usage, AcquiredSwapchainImage, Allocation, RenderGraph,
    RenderPass,
};
use crate::resource::{
    Buffer, BufferDescription, BufferHandle, BufferKey, Extent2D, Image, ImageDescription2D,
    ImageHandle, MemoryType, RasterPipelineHandle, RasterPipleineKey, Resource, Sampler,
    SamplerKey, SurfaceHandle,
};
use crate::resource_manager::{
    buffer_wants_storage, ManagerState, ReclaimedResources, ResourceManager,
};
use crate::slots::{
    lookup, slot_inserted, slot_removed, slots_coherent, SlotTable, MAX_INSERTIONS,
};
use crate::swapchain::{
    configure_action, reconfigured, ConfigureAction, SurfaceSettings, Swapchain, SwapchainManager,
};
use vstd::prelude::*;

verus! {

/// A queue of the device.
#[derive(Clone, Copy, Debug, PartialEq, Eq, Structural)]
pub struct AshQueue {
    pub family_index: u32,
    pub handle: u64,
    pub flags: u32,
}

/// What a device is made with.
#[derive(Clone, Copy, Debug, PartialEq, Eq, Structural)]
pub struct DeviceSettings {
    /// How many frames may be in flight at once.
    pub frames_in_flight: usize,
}

/// What became of a request to destroy a resource.
#[derive(Clone, Copy, Debug, PartialEq, Eq, Structural)]
pub enum DestroyOutcome {
    /// The key was queued for deferred removal.
    Queued,
    /// The handle names a transient resource, which cannot be destroyed on
    /// its own; nothing was done.
    TransientIgnored,
}

/// The buffer usages of the transfer pass for the first `count` pending
/// uploads: each staging buffer is read, each target buffer written.
pub open spec fn transfer_usages(transfers: Seq<(BufferHandle, BufferHandle)>, count: nat) -> Seq<
    (BufferHandle, BufferResourceAccess),
>
    decreases count,
{
    if count == 0 || count > transfers.len() {
        Seq::empty()
    } else {
        let (staging, target) = transfers[count - 1];
        with_buffer_usage(
            with_buffer_usage(
                transfer_usages(transfers, (count - 1) as nat),
                staging,
                BufferResourceAccess::TransferRead,
            ),
            target,
            BufferResourceAccess::TransferWrite,
        )
    }
}

/// `pass` is the transfer pass for `transfers`.
pub open spec fn is_transfer_pass(pass: RenderPass, transfers: Seq<(BufferHandle, BufferHandle)>) -> bool {
    &&& pass.name@ == "Transfer Pass"@
    &&& pass.queue == Queue::Graphics
    &&& pass.buffer_usages@ == transfer_usages(transfers, transfers.len())
    &&& pass.image_usages@.len() == 0
    &&& pass.framebuffer is None
    &&& pass.build_cmd_fn is None
}

/// Builds the pass that carries out the pending uploads before any declared
/// pass runs; none if nothing is pending.
pub fn build_transfer_pass(transfers: &Vec<(BufferHandle, BufferHandle)>) -> (r: Option<RenderPass>)
    ensures
        r is Some <==> transfers@.len() > 0,
        r matches Some(pass) ==> is_transfer_pass(pass, transfers@),
{
    if transfers.len() == 0 {
        return None;
    }
    let mut pass = RenderPass::new("Transfer Pass");
    let mut i: usize = 0;
    while i < transfers.len()
        invariant
            i <= transfers.len(),
            pass.name@ == "Transfer Pass"@,
            pass.queue == Queue::Graphics,
            pass.buffer_usages@ == transfer_usages(transfers@, i as nat),
            pass.image_usages@.len() == 0,
            pass.framebuffer is None,
            pass.build_cmd_fn is None,
        decreases transfers.len() - i,
    {
        let (staging, target) = transfers[i];
        declare_buffer_usage(&mut pass.buffer_usages, staging, BufferResourceAccess::TransferRead);
        declare_buffer_usage(&mut pass.buffer_usages, target, BufferResourceAccess::TransferWrite);
        i += 1;
    }
    Some(pass)
}

/// What a device holds, as mathematical values.
pub struct DeviceState {
    pub resources: ManagerState,
    /// Live raster pipelines, by key.
    pub raster_pipelines: Map<u64, Resource>,
    /// Generation of each pipeline slot.
    pub pipeline_generations: Seq<u32>,
    /// Pipelines added so far.
    pub pipeline_insertions: nat,
    /// Uploads waiting for the next frame: staging buffer and target.
    pub transfers: Seq<(BufferHandle, BufferHandle)>,
    pub swapchains: Map<u64, Swapchain>,
    /// Family of the queue that frames are planned for.
    pub queue_family_index: u32,
}

impl DeviceState {
    /// The device's invariant: that of the resource manager, and a sound
    /// pipeline table that holds pipelines only.
    pub open spec fn wf(self) -> bool {
        &&& self.resources.wf()
        &&& slots_coherent(self.raster_pipelines, self.pipeline_generations)
        &&& 1 <= self.pipeline_generations.len() <= self.pipeline_insertions + 1
        &&& self.pipeline_insertions <= MAX_INSERTIONS
        &&& forall|key: u64| #[trigger]
            self.raster_pipelines.contains_key(key) ==> self.raster_pipelines[key] is RasterPipeline
    }
}

/// What a submitted frame comes to.
pub struct SubmittedFrame {
    /// The barriers to record, pass by pass.
    pub plan: FramePlan,
    /// The uploads that the transfer pass carries out, if there is one.
    pub transfers: Vec<(BufferHandle, BufferHandle)>,
}

impl SubmittedFrame {
    /// Whether the pass at `pass_index` of the plan is the transfer pass,
    /// which carries out the uploads instead of calling a callback: the
    /// first pass, if there are uploads.
    pub open spec fn transfer_pass_at(&self, pass_index: usize) -> bool {
        self.transfers@.len() > 0 && pass_index == 0
    }

    /// Tests [`SubmittedFrame::transfer_pass_at`].
    pub fn is_transfer_pass(&self, pass_index: usize) -> (r: bool)
        ensures
            r == self.transfer_pass_at(pass_index),
    {
        self.transfers.len() > 0 && pass_index == 0
    }
}

/// The logical device: owner of the resources, the pipelines and the
/// swapchains, and of the uploads pending for the next frame.
pub struct Device {
    raster_pipelines: SlotTable,
    persistent_resource_manager: ResourceManager,
    swapchain_manager: SwapchainManager,
    transfer_list: Vec<(BufferHandle, BufferHandle)>,
    graph_executor: BasicRenderGraphExecutor,
}

impl View for Device {
    type V = DeviceState;

    closed spec fn view(&self) -> DeviceState {
        DeviceState {
            resources: self.persistent_resource_manager@,
            raster_pipelines: self.raster_pipelines.entries(),
            pipeline_generations: self.raster_pipelines.generations(),
            pipeline_insertions: self.raster_pipelines.insertions(),
            transfers: self.transfer_list@,
            swapchains: self.swapchain_manager.swapchains@,
            queue_family_index: self.graph_executor.queue_family_index,
        }
    }
}

/// The buffer created as `handle` from `description`, not bound yet.
pub open spec fn described_buffer(description: BufferDescription, handle: u64) -> Buffer {
    Buffer {
        handle,
        size: description.size,
        usage: description.usage,
        location: description.location,
        storage_binding: None,
    }
}

/// The image created as `handle` from `description`, not bound yet.
pub open spec fn described_image(description: ImageDescription2D, handle: u64) -> Image {
    Image {
        handle,
        size: Extent2D { width: description.size[0], height: description.size[1] },
        format: description.format,
        usage: description.usage,
        location: description.location,
        storage_binding: None,
        sampled_binding: None,
    }
}

/// The buffer that stages an upload of `size` bytes.
pub open spec fn staging_buffer(handle: u64, size: u64) -> Buffer {
    Buffer {
        handle,
        size,
        usage: BUFFER_USAGE_TRANSFER_SRC,
        location: MemoryType::CpuToGpu,
        storage_binding: None,
    }
}

impl Device {
    /// The device's invariant holds.
    pub open spec fn wf(&self) -> bool {
        self@.wf()
    }

    /// A device that owns nothing yet.
    pub fn new(settings: &DeviceSettings) -> (device: Device)
        ensures
            device.wf(),
            device@.resources.is_empty(),
            device@.resources.frames_in_flight() == (if settings.frames_in_flight == 0 {
                1
            } else {
                settings.frames_in_flight
            }),
            device@.raster_pipelines == Map::<u64, Resource>::empty(),
            device@.pipeline_generations == seq![0u32],
            device@.pipeline_insertions == 0,
            device@.transfers == Seq::<(BufferHandle, BufferHandle)>::empty(),
            device@.swapchains == Map::<u64, Swapchain>::empty(),
            device@.queue_family_index == 0,
    {
        Device {
            raster_pipelines: SlotTable::new(),
            persistent_resource_manager: ResourceManager::new(settings.frames_in_flight),
            swapchain_manager: SwapchainManager::new(),
            transfer_list: Vec::new(),
            graph_executor: BasicRenderGraphExecutor::new(0),
        }
    }

    /// Takes ownership of the buffer that the caller created as `handle`
    /// from `description`: see [`ResourceManager::add_buffer`].
    pub fn create_buffer(&mut self, description: &BufferDescription, handle: u64) -> (r: Result<
        BufferHandle,
        Error,
    >)
        requires
            old(self).wf(),
        ensures
            final(self).wf(),
            final(self)@ == (DeviceState { resources: final(self)@.resources, ..old(self)@ }),
            r is Err <==> old(self)@.resources.buffer_refused(description.usage),
            r matches Err(e) ==> e == Error::AllocationFailure && final(self)@ == old(self)@,
            r matches Ok(created) ==> created is Persistent && old(self)@.resources.buffer_added(
                described_buffer(*description, handle),
                created->Persistent_0.0,
                final(self)@.resources,
            ),
    {
        let buffer = Buffer {
            handle,
            size: description.size,
            usage: description.usage,
            location: description.location,
            storage_binding: None,
        };
        match self.persistent_resource_manager.add_buffer(buffer) {
            Ok(key) => Ok(BufferHandle::Persistent(key)),
            Err(e) => Err(e),
        }
    }

    /// Asks for a buffer to be destroyed. A persistent buffer is queued for
    /// deferred removal; a transient one cannot be destroyed on its own, and
    /// nothing is done.
    pub fn destroy_buffer(&mut self, buffer_handle: BufferHandle) -> (outcome: DestroyOutcome)
        requires
            old(self).wf(),
        ensures
            final(self).wf(),
            match buffer_handle {
                BufferHandle::Persistent(key) => outcome == DestroyOutcome::Queued && final(self)@
                    == (DeviceState {
                    resources: old(self)@.resources.buffer_queued(key.0),
                    ..old(self)@
                }),
                BufferHandle::Transient(_) => outcome == DestroyOutcome::TransientIgnored
                    && final(self)@ == old(self)@,
            },
    {
        match buffer_handle {
            BufferHandle::Persistent(key) => {
                self.persistent_resource_manager.remove_buffer(key);
                DestroyOutcome::Queued
            },
            BufferHandle::Transient(_) => DestroyOutcome::TransientIgnored,
        }
    }

    /// Schedules the upload of `size` bytes to `buffer_handle` through the
    /// staging buffer that the caller created and filled as `staging`. The
    /// staging buffer is owned from now on, and is queued for removal at
    /// once, so that it goes when the frame that uses it is done.
    pub fn update_data_to_buffer(&mut self, buffer_handle: BufferHandle, size: u64, staging: u64) -> (r:
        Result<(), Error>)
        requires
            old(self).wf(),
        ensures
            final(self).wf(),
            r matches Err(e) ==> e == Error::AllocationFailure && final(self)@ == old(self)@,
            r is Err <==> old(self)@.resources.buffer_insertions >= MAX_INSERTIONS,
            r is Ok ==> exists|key: u64, added: ManagerState|
                {
                    &&& #[trigger] old(self)@.resources.buffer_added(
                        staging_buffer(staging, size),
                        key,
                        added,
                    )
                    &&& final(self)@ == (DeviceState {
                        resources: added.buffer_queued(key),
                        transfers: old(self)@.transfers.push(
                            (BufferHandle::Persistent(BufferKey(key)), buffer_handle),
                        ),
                        ..old(self)@
                    })
                },
    {
        let buffer = Buffer {
            handle: staging,
            size,
            usage: BUFFER_USAGE_TRANSFER_SRC,
            location: MemoryType::CpuToGpu,
            storage_binding: None,
        };
        proof {
            assert(!buffer_wants_storage(BUFFER_USAGE_TRANSFER_SRC)) by {
                assert(0x1u32 & 0x20u32 != 0x20u32) by (bit_vector);
            }
        }
        let key = match self.persistent_resource_manager.add_buffer(buffer) {
            Ok(key) => key,
            Err(e) => {
                return Err(e);
            },
        };
        let staging_handle = BufferHandle::Persistent(key);
        self.transfer_list.push((staging_handle, buffer_handle));
        self.persistent_resource_manager.remove_buffer(key);
        Ok(())
    }

    /// Creates a buffer and schedules the upload of its first contents: the
    /// buffer created as `handle` from `description` is taken over, and `size`
    /// bytes are uploaded to it through the staging buffer `staging`. If the
    /// upload cannot be scheduled, the buffer stays.
    pub fn create_buffer_init(
        &mut self,
        description: &BufferDescription,
        handle: u64,
        size: u64,
        staging: u64,
    ) -> (r: Result<BufferHandle, Error>)
        requires
            old(self).wf(),
        ensures
            final(self).wf(),
            r matches Err(e) ==> e == Error::AllocationFailure,
            old(self)@.resources.buffer_refused(description.usage) ==> r is Err && final(self)@
                == old(self)@,
            r is Ok <==> !old(self)@.resources.buffer_refused(description.usage)
                && old(self)@.resources.buffer_insertions + 1 < MAX_INSERTIONS,
            !old(self)@.resources.buffer_refused(description.usage) ==> exists|
                key: u64,
                created: ManagerState,
            |
                {
                    &&& #[trigger] old(self)@.resources.buffer_added(
                        described_buffer(*description, handle),
                        key,
                        created,
                    )
                    &&& r matches Ok(made) ==> made == BufferHandle::Persistent(BufferKey(key))
                    &&& r is Err ==> final(self)@ == (DeviceState {
                        resources: created,
                        ..old(self)@
                    })
                    &&& r is Ok ==> exists|staging_key: u64, staged: ManagerState|
                        {
                            &&& #[trigger] created.buffer_added(
                                staging_buffer(staging, size),
                                staging_key,
                                staged,
                            )
                            &&& final(self)@ == (DeviceState {
                                resources: staged.buffer_queued(staging_key),
                                transfers: old(self)@.transfers.push(
                                    (
                                        BufferHandle::Persistent(BufferKey(staging_key)),
                                        BufferHandle::Persistent(BufferKey(key)),
                                    ),
                                ),
                                ..old(self)@
                            })
                        }
                },
    {
        let buffer = match self.create_buffer(description, handle) {
            Ok(buffer) => buffer,
            Err(e) => {
                return Err(e);
            },
        };
        match self.update_data_to_buffer(buffer, size, staging) {
            Ok(()) => Ok(buffer),
            Err(e) => Err(e),
        }
    }

    /// The uploads pending for the next frame.
    pub fn pending_transfers(&self) -> (transfers: &Vec<(BufferHandle, BufferHandle)>)
        ensures
            transfers@ == self@.transfers,
    {
        &self.transfer_list
    }

    /// Takes ownership of the image that the caller created as `handle`
    /// from `description`: see [`ResourceManager::add_image`].
    pub fn create_image(&mut self, description: &ImageDescription2D, handle: u64) -> (r: Result<
        ImageHandle,
        Error,
    >)
        requires
            old(self).wf(),
        ensures
            final(self).wf(),
            final(self)@ == (DeviceState { resources: final(self)@.resources, ..old(self)@ }),
            r is Err <==> old(self)@.resources.image_refused(description.usage),
            r matches Err(e) ==> e == Error::AllocationFailure && final(self)@ == old(self)@,
            r matches Ok(created) ==> created is Persistent && old(self)@.resources.image_added(
                described_image(*description, handle),
                created->Persistent_0.0,
                final(self)@.resources,
            ),
    {
        let image = Image {
            handle,
            size: Extent2D { width: description.size[0], height: description.size[1] },
            format: description.format,
            usage: description.usage,
            location: description.location,
            storage_binding: None,
            sampled_binding: None,
        };
        match self.persistent_resource_manager.add_image(image) {
            Ok(key) => Ok(ImageHandle::Persistent(key)),
            Err(e) => Err(e),
        }
    }

    /// Asks for an image to be destroyed. A persistent image is queued for
    /// deferred removal; a transient one cannot be destroyed on its own, and
    /// nothing is done.
    pub fn destroy_image(&mut self, image_handle: ImageHandle) -> (outcome: DestroyOutcome)
        requires
            old(self).wf(),
        ensures
            final(self).wf(),
            match image_handle {
                ImageHandle::Persistent(key) => outcome == DestroyOutcome::Queued && final(self)@
                    == (DeviceState {
                    resources: old(self)@.resources.image_queued(key.0),
                    ..old(self)@
                }),
                ImageHandle::Transient(_) => outcome == DestroyOutcome::TransientIgnored
                    && final(self)@ == old(self)@,
            },
    {
        match image_handle {
            ImageHandle::Persistent(key) => {
                self.persistent_resource_manager.remove_image(key);
                DestroyOutcome::Queued
            },
            ImageHandle::Transient(_) => DestroyOutcome::TransientIgnored,
        }
    }

    /// Takes ownership of the sampler that the caller created as `handle`:
    /// see [`ResourceManager::add_sampler`].
    pub fn create_sampler(&mut self, handle: u64) -> (r: Result<SamplerKey, Error>)
        requires
            old(self).wf(),
        ensures
            final(self).wf(),
            final(self)@ == (DeviceState { resources: final(self)@.resources, ..old(self)@ }),
            r is Err <==> old(self)@.resources.sampler_refused(),
            r matches Err(e) ==> e == Error::AllocationFailure && final(self)@ == old(self)@,
            r matches Ok(key) ==> old(self)@.resources.sampler_added(
                handle,
                key.0,
                final(self)@.resources,
            ),
    {
        self.persistent_resource_manager.add_sampler(Sampler { handle, binding: None })
    }

    /// Queues a sampler for deferred removal.
    pub fn destroy_sampler(&mut self, key: SamplerKey)
        requires
            old(self).wf(),
        ensures
            final(self).wf(),
            final(self)@ == (DeviceState {
                resources: old(self)@.resources.sampler_queued(key.0),
                ..old(self)@
            }),
    {
        self.persistent_resource_manager.remove_sampler(key);
    }

    /// Takes ownership of the raster pipeline that the caller created as
    /// `pipeline`. Fails only when the pipeline table accepts no more
    /// insertions.
    pub fn create_raster_pipeline(&mut self, pipeline: u64) -> (r: Result<
        RasterPipelineHandle,
        Error,
    >)
        requires
            old(self).wf(),
        ensures
            final(self).wf(),
            r is Err <==> old(self)@.pipeline_insertions >= MAX_INSERTIONS,
            r matches Err(e) ==> e == Error::AllocationFailure && final(self)@ == old(self)@,
            r matches Ok(created) ==> slot_inserted(
                old(self)@.raster_pipelines,
                old(self)@.pipeline_generations,
                Resource::RasterPipeline(pipeline),
                created.0.0,
                final(self)@.raster_pipelines,
                final(self)@.pipeline_generations,
            ) && final(self)@ == (DeviceState {
                raster_pipelines: final(self)@.raster_pipelines,
                pipeline_generations: final(self)@.pipeline_generations,
                pipeline_insertions: old(self)@.pipeline_insertions + 1,
                ..old(self)@
            }),
    {
        match self.raster_pipelines.insert(Resource::RasterPipeline(pipeline)) {
            Some(key) => Ok(RasterPipelineHandle(RasterPipleineKey(key))),
            None => Err(Error::AllocationFailure),
        }
    }

    /// Gives up a raster pipeline at once and returns its raw handle, for
    /// destruction. A handle that is not live changes nothing.
    pub fn destroy_raster_pipeline(&mut self, raster_pipeline_handle: RasterPipelineHandle) -> (r:
        Option<u64>)
        requires
            old(self).wf(),
        ensures
            final(self).wf(),
            r == (match lookup(old(self)@.raster_pipelines, raster_pipeline_handle.0.0) {
                Some(Resource::RasterPipeline(pipeline)) => Some(pipeline),
                _ => None,
            }),
            r is Some ==> slot_removed(
                old(self)@.raster_pipelines,
                old(self)@.pipeline_generations,
                raster_pipeline_handle.0.0,
                final(self)@.raster_pipelines,
                final(self)@.pipeline_generations,
            ) && final(self)@ == (DeviceState {
                raster_pipelines: final(self)@.raster_pipelines,
                pipeline_generations: final(self)@.pipeline_generations,
                ..old(self)@
            }),
            r is None ==> final(self)@ == old(self)@,
    {
        match self.raster_pipelines.remove(raster_pipeline_handle.0.0) {
            Some(Resource::RasterPipeline(pipeline)) => Some(pipeline),
            _ => None,
        }
    }

    /// Decides how a surface is configured with `settings`: by creating a
    /// swapchain if it has none; otherwise by rebuilding the one it has, which
    /// takes the settings over at once.
    pub fn configure_surface(
        &mut self,
        surface_handle: SurfaceHandle,
        settings: &SurfaceSettings,
    ) -> (action: ConfigureAction)
        requires
            old(self).wf(),
        ensures
            final(self).wf(),
            final(self)@ == (DeviceState {
                swapchains: reconfigured(old(self)@.swapchains, surface_handle, *settings),
                ..old(self)@
            }),
            action == configure_action(old(self)@.swapchains, surface_handle),
    {
        self.swapchain_manager.configure_surface(surface_handle, settings)
    }

    /// The swapchain of a surface, if it has one.
    pub fn swapchain(&self, surface_handle: SurfaceHandle) -> (r: Option<&Swapchain>)
        ensures
            r is Some <==> self@.swapchains.contains_key(surface_handle.0),
            r matches Some(swapchain) ==> *swapchain == self@.swapchains[surface_handle.0],
    {
        self.swapchain_manager.get(surface_handle)
    }

    /// Installs the swapchain built for a surface, in place of the one the
    /// surface had, which is returned for destruction.
    pub fn install_swapchain(&mut self, swapchain: Swapchain) -> (replaced: Option<Swapchain>)
        requires
            old(self).wf(),
        ensures
            final(self).wf(),
            final(self)@ == (DeviceState {
                swapchains: old(self)@.swapchains.insert(swapchain.surface.0, swapchain),
                ..old(self)@
            }),
            replaced == (if old(self)@.swapchains.contains_key(swapchain.surface.0) {
                Some(old(self)@.swapchains[swapchain.surface.0])
            } else {
                None
            }),
    {
        self.swapchain_manager.add(swapchain)
    }

    /// Removes the swapchain of a surface and returns it, released, for
    /// destruction. A surface without a swapchain changes nothing.
    pub fn release_surface(&mut self, surface_handle: SurfaceHandle) -> (released: Option<Swapchain>)
        requires
            old(self).wf(),
        ensures
            final(self).wf(),
            final(self)@ == (DeviceState {
                swapchains: old(self)@.swapchains.remove(surface_handle.0),
                ..old(self)@
            }),
            released is Some <==> old(self)@.swapchains.contains_key(surface_handle.0),
            released matches Some(swapchain) ==> swapchain.state is Released && swapchain.handle
                == old(self)@.swapchains[surface_handle.0].handle,
    {
        self.swapchain_manager.release_surface(surface_handle)
    }

    /// Plans a frame. If uploads are pending, a transfer pass that reads
    /// every staging buffer and writes every target runs before the passes
    /// of the graph; the pending uploads are taken either way. The rest is
    /// [`BasicRenderGraphExecutor::execute_graph`].
    pub fn submit_frame(
        &mut self,
        render_graph: &RenderGraph,
        swapchain_images: &[AcquiredSwapchainImage],
        buffer_allocations: &[Allocation],
        image_allocations: &[Allocation],
    ) -> (r: Result<SubmittedFrame, Error>)
        requires
            old(self).wf(),
        ensures
            final(self).wf(),
            final(self)@.transfers.len() == 0,
            exists|transfer_pass: Option<RenderPass>|
                {
                    &&& transfer_pass is Some <==> old(self)@.transfers.len() > 0
                    &&& transfer_pass matches Some(pass) ==> is_transfer_pass(
                        pass,
                        old(self)@.transfers,
                    )
                    &&& final(self)@ == (DeviceState {
                        resources: (#[trigger] executed(
                            old(self)@.resources,
                            transfer_pass,
                            *render_graph,
                            swapchain_images@,
                            buffer_allocations@,
                            image_allocations@,
                        )).0,
                        transfers: Seq::empty(),
                        ..old(self)@
                    })
                    &&& r matches Ok(frame) ==> frame.transfers@ == old(self)@.transfers
                        && executed(
                        old(self)@.resources,
                        transfer_pass,
                        *render_graph,
                        swapchain_images@,
                        buffer_allocations@,
                        image_allocations@,
                    ).1 == Ok::<(Seq<PassPlanView>, Seq<PresentCommand>), Error>(
                        (pass_plan_views(frame.plan.passes@), frame.plan.present@),
                    )
                    &&& r matches Err(e) ==> executed(
                        old(self)@.resources,
                        transfer_pass,
                        *render_graph,
                        swapchain_images@,
                        buffer_allocations@,
                        image_allocations@,
                    ).1 == Err::<(Seq<PassPlanView>, Seq<PresentCommand>), Error>(e)
                },
    {
        let transfer_pass = build_transfer_pass(&self.transfer_list);
        let mut transfers: Vec<(BufferHandle, BufferHandle)> = Vec::new();
        std::mem::swap(&mut self.transfer_list, &mut transfers);
        let ghost chosen = transfer_pass;
        let outcome = self.graph_executor.execute_graph(
            transfer_pass,
            render_graph,
            &mut self.persistent_resource_manager,
            swapchain_images,
            buffer_allocations,
            image_allocations,
        );
        proof {
            assert(self@ == (DeviceState {
                resources: executed(
                    old(self)@.resources,
                    chosen,
                    *render_graph,
                    swapchain_images@,
                    buffer_allocations@,
                    image_allocations@,
                ).0,
                transfers: Seq::empty(),
                ..old(self)@
            }));
        }
        match outcome {
            Ok(plan) => Ok(SubmittedFrame { plan, transfers }),
            Err(e) => Err(e),
        }
    }

    /// Ends the frame: see [`ResourceManager::flush_frame`].
    pub fn flush_frame(&mut self) -> (reclaimed: ReclaimedResources)
        requires
            old(self).wf(),
        ensures
            final(self).wf(),
            final(self)@ == (DeviceState {
                resources: old(self)@.resources.flushed(),
                ..old(self)@
            }),
            reclaimed.persistent@ == old(self)@.resources.reclaimed(),
            reclaimed.transient_buffers@ == old(self)@.resources.transient_buffers,
            reclaimed.transient_images@ == old(self)@.resources.transient_images,
    {
        self.persistent_resource_manager.flush_frame()
    }

    /// The resource manager, for lookups.
    pub fn resources(&self) -> (manager: &ResourceManager)
        requires
            self.wf(),
        ensures
            manager.wf(),
            manager@ == self@.resources,
    {
        &self.persistent_resource_manager
    }
}

} // verus!
