//! Resolution of the resources a graph declares to concrete objects.
//!
//! A persistent resource is looked up; a transient one is registered with
//! the manager for the length of the frame, around the device object that was
//! created for it; a swapchain image is taken from the images acquired for
//! the frame. Entries are resolved in order, and the first that fails ends
//! the resolution: what was registered before it stays registered until the
//! next flush.

use crate::access::ImageResourceAccess;
use crate::error::Error;
use crate::render_graph::{
    allocation_at, allocation_for, AcquiredSwapchainImage, Allocation, BufferGraphResource,
    BufferResourceDescription, ImageGraphResource, ImageResourceDescription,
};
use crate::resource::{BufferTempResource, ImageDescription2D, ImageTempResource};
use crate::resource_manager::{buffer_at, image_at, ManagerState, ResourceManager};
use crate::sizing::{get_transient_image_size, transient_image_size};
use vstd::prelude::*;

verus! {

impl ManagerState {
    /// Resolves one buffer of a graph.
    ///
    /// - A persistent buffer is the one stored under its key, with the access
    ///   it was last put to; a key that is not live is an invalid handle.
    /// - A transient buffer needs the device object created for it: without
    ///   one it is an allocation failure, and if creation failed it is that
    ///   failure. With one it is registered, never used before.
    pub open spec fn resolve_buffer(
        self,
        description: BufferResourceDescription,
        allocation: Allocation,
    ) -> (ManagerState, Result<BufferTempResource, Error>) {
        match description {
            BufferResourceDescription::Persistent(key) => match buffer_at(self, key) {
                Some(b) => (
                    self,
                    Ok(BufferTempResource { buffer: b.buffer, last_access: b.last_access }),
                ),
                None => (self, Err(Error::InvalidHandle)),
            },
            BufferResourceDescription::Transient(description) => match allocation {
                Allocation::Created(handle) => self.with_transient_buffer(description, handle),
                Allocation::Failed(e) => (self, Err(e)),
                Allocation::Unused => (self, Err(Error::AllocationFailure)),
            },
        }
    }

    /// Resolves the first `count` buffers of a graph in order, up to the
    /// first that fails. `allocations[i]` is the device object created for
    /// entry `i`.
    pub open spec fn resolve_buffers_upto(
        self,
        buffers: Seq<BufferGraphResource>,
        allocations: Seq<Allocation>,
        count: nat,
    ) -> (ManagerState, Result<Seq<BufferTempResource>, Error>)
        decreases count,
    {
        if count == 0 || count > buffers.len() {
            (self, Ok(Seq::empty()))
        } else {
            let (state, earlier) = self.resolve_buffers_upto(
                buffers,
                allocations,
                (count - 1) as nat,
            );
            match earlier {
                Ok(resolved) => {
                    let (next, outcome) = state.resolve_buffer(
                        buffers[count - 1].description,
                        allocation_for(allocations, count - 1),
                    );
                    match outcome {
                        Ok(resource) => (next, Ok(resolved.push(resource))),
                        Err(e) => (next, Err(e)),
                    }
                },
                Err(e) => (state, Err(e)),
            }
        }
    }

    /// Resolves the buffers of a graph in order, up to the first that fails.
    pub open spec fn resolve_buffers(
        self,
        buffers: Seq<BufferGraphResource>,
        allocations: Seq<Allocation>,
    ) -> (ManagerState, Result<Seq<BufferTempResource>, Error>) {
        self.resolve_buffers_upto(buffers, allocations, buffers.len())
    }

    /// Resolves one image of a graph.
    ///
    /// - A persistent image is the one stored under its key, with the access
    ///   it was last put to; a key that is not live is an invalid handle.
    /// - A transient image is first sized, through at most as many transient
    ///   images as the graph has. Then it needs the device object created for
    ///   it: without one it is an allocation failure, and if creation failed
    ///   it is that failure. With one it is registered, never used before.
    /// - A swapchain image is the image acquired under that index, never used
    ///   before; an index beyond the acquired images is an invalid handle.
    pub open spec fn resolve_image(
        self,
        description: ImageResourceDescription,
        allocation: Allocation,
        images: Seq<ImageGraphResource>,
        swapchain_images: Seq<AcquiredSwapchainImage>,
    ) -> (ManagerState, Result<ImageTempResource, Error>) {
        match description {
            ImageResourceDescription::Persistent(key) => match image_at(self, key) {
                Some(i) => (self, Ok(ImageTempResource { image: i.image, last_usage: i.last_usage })),
                None => (self, Err(Error::InvalidHandle)),
            },
            ImageResourceDescription::Transient(description) => match transient_image_size(
                description.size,
                self,
                images,
                swapchain_images,
                images.len(),
            ) {
                Ok(size) => match allocation {
                    Allocation::Created(handle) => self.with_transient_image(
                        description,
                        size,
                        handle,
                    ),
                    Allocation::Failed(e) => (self, Err(e)),
                    Allocation::Unused => (self, Err(Error::AllocationFailure)),
                },
                Err(e) => (self, Err(e)),
            },
            ImageResourceDescription::Swapchain(index) => if index < swapchain_images.len() {
                (
                    self,
                    Ok(
                        ImageTempResource {
                            image: swapchain_images[index as int].image,
                            last_usage: ImageResourceAccess::Unused,
                        },
                    ),
                )
            } else {
                (self, Err(Error::InvalidHandle))
            },
        }
    }

    /// Resolves the first `count` images of a graph in order, up to the
    /// first that fails. `allocations[i]` is the device object created for
    /// entry `i`.
    pub open spec fn resolve_images_upto(
        self,
        images: Seq<ImageGraphResource>,
        allocations: Seq<Allocation>,
        swapchain_images: Seq<AcquiredSwapchainImage>,
        count: nat,
    ) -> (ManagerState, Result<Seq<ImageTempResource>, Error>)
        decreases count,
    {
        if count == 0 || count > images.len() {
            (self, Ok(Seq::empty()))
        } else {
            let (state, earlier) = self.resolve_images_upto(
                images,
                allocations,
                swapchain_images,
                (count - 1) as nat,
            );
            match earlier {
                Ok(resolved) => {
                    let (next, outcome) = state.resolve_image(
                        images[count - 1].description,
                        allocation_for(allocations, count - 1),
                        images,
                        swapchain_images,
                    );
                    match outcome {
                        Ok(resource) => (next, Ok(resolved.push(resource))),
                        Err(e) => (next, Err(e)),
                    }
                },
                Err(e) => (state, Err(e)),
            }
        }
    }

    /// Resolves the images of a graph in order, up to the first that fails.
    pub open spec fn resolve_images(
        self,
        images: Seq<ImageGraphResource>,
        allocations: Seq<Allocation>,
        swapchain_images: Seq<AcquiredSwapchainImage>,
    ) -> (ManagerState, Result<Seq<ImageTempResource>, Error>) {
        self.resolve_images_upto(images, allocations, swapchain_images, images.len())
    }
}

/// Once the first `upto` buffers have failed to resolve, the whole list
/// fails in the same way and leaves the same state.
pub proof fn lemma_buffer_failure_is_final(
    state: ManagerState,
    buffers: Seq<BufferGraphResource>,
    allocations: Seq<Allocation>,
    upto: nat,
    count: nat,
)
    requires
        upto <= count <= buffers.len(),
        state.resolve_buffers_upto(buffers, allocations, upto).1 is Err,
    ensures
        state.resolve_buffers_upto(buffers, allocations, count) == state.resolve_buffers_upto(
            buffers,
            allocations,
            upto,
        ),
    decreases count,
{
    if upto < count {
        lemma_buffer_failure_is_final(state, buffers, allocations, upto, (count - 1) as nat);
    }
}

/// Resolving buffers touches no persistent table, no image and no queue of
/// the ring, and keeps the transient buffers that were there; on success it
/// yields one resource for each entry. Resolving no buffer changes nothing.
pub proof fn lemma_resolve_buffers_frame(
    state: ManagerState,
    buffers: Seq<BufferGraphResource>,
    allocations: Seq<Allocation>,
    count: nat,
)
    requires
        count <= buffers.len(),
    ensures
        ({
            let (after, outcome) = state.resolve_buffers_upto(buffers, allocations, count);
            &&& after == (ManagerState {
                storage_buffer_slots: after.storage_buffer_slots,
                transient_buffers: after.transient_buffers,
                ..state
            })
            &&& state.transient_buffers.is_prefix_of(after.transient_buffers)
            &&& outcome matches Ok(resolved) ==> resolved.len() == count
        }),
        buffers.len() == 0 ==> state.resolve_buffers(buffers, allocations) == (
            state,
            Ok::<Seq<BufferTempResource>, Error>(Seq::empty()),
        ),
    decreases count,
{
    if count > 0 {
        lemma_resolve_buffers_frame(state, buffers, allocations, (count - 1) as nat);
    }
}

impl ResourceManager {
    /// Resolves one buffer of a graph.
    fn resolve_buffer(&mut self, description: &BufferResourceDescription, allocation: Allocation) -> (r:
        Result<BufferTempResource, Error>)
        requires
            old(self).wf(),
        ensures
            final(self).wf(),
            (final(self)@, r) == old(self)@.resolve_buffer(*description, allocation),
    {
        match description {
            BufferResourceDescription::Persistent(key) => match self.get_buffer_resource(*key) {
                Some(b) => Ok(BufferTempResource { buffer: b.buffer, last_access: b.last_access }),
                None => Err(Error::InvalidHandle),
            },
            BufferResourceDescription::Transient(description) => match allocation {
                Allocation::Created(handle) => self.add_transient_buffer(description, handle),
                Allocation::Failed(e) => Err(e),
                Allocation::Unused => Err(Error::AllocationFailure),
            },
        }
    }

    /// Resolves the buffers of a graph, in order. `allocations[i]` is the
    /// device object created for entry `i`, if it is transient.
    ///
    /// Returns one resource per entry, or the error of the first entry that
    /// fails. Transient buffers resolved before a failure stay registered
    /// until the next flush.
    pub fn get_buffer_resources(
        &mut self,
        buffers: &[BufferGraphResource],
        allocations: &[Allocation],
    ) -> (r: Result<Vec<BufferTempResource>, Error>)
        requires
            old(self).wf(),
        ensures
            final(self).wf(),
            final(self)@ == old(self)@.resolve_buffers(buffers@, allocations@).0,
            r matches Ok(resolved) ==> old(self)@.resolve_buffers(buffers@, allocations@).1 == Ok::<
                Seq<BufferTempResource>,
                Error,
            >(resolved@),
            r matches Err(e) ==> old(self)@.resolve_buffers(buffers@, allocations@).1 == Err::<
                Seq<BufferTempResource>,
                Error,
            >(e),
            buffers@.len() == 0 ==> r is Ok && final(self)@ == old(self)@,
    {
        let mut resolved: Vec<BufferTempResource> = Vec::new();
        let mut i: usize = 0;
        while i < buffers.len()
            invariant
                i <= buffers.len(),
                self.wf(),
                old(self)@.resolve_buffers_upto(buffers@, allocations@, i as nat) == (
                    self@,
                    Ok::<Seq<BufferTempResource>, Error>(resolved@),
                ),
            decreases buffers.len() - i,
        {
            let allocation = allocation_at(allocations, i);
            match self.resolve_buffer(&buffers[i].description, allocation) {
                Ok(resource) => {
                    resolved.push(resource);
                },
                Err(e) => {
                    proof {
                        lemma_buffer_failure_is_final(
                            old(self)@,
                            buffers@,
                            allocations@,
                            (i + 1) as nat,
                            buffers@.len(),
                        );
                    }
                    return Err(e);
                },
            }
            i += 1;
        }
        Ok(resolved)
    }
}

/// Once the first `upto` images have failed to resolve, the whole list fails
/// in the same way and leaves the same state.
pub proof fn lemma_image_failure_is_final(
    state: ManagerState,
    images: Seq<ImageGraphResource>,
    allocations: Seq<Allocation>,
    swapchain_images: Seq<AcquiredSwapchainImage>,
    upto: nat,
    count: nat,
)
    requires
        upto <= count <= images.len(),
        state.resolve_images_upto(images, allocations, swapchain_images, upto).1 is Err,
    ensures
        state.resolve_images_upto(images, allocations, swapchain_images, count)
            == state.resolve_images_upto(images, allocations, swapchain_images, upto),
    decreases count,
{
    if upto < count {
        lemma_image_failure_is_final(
            state,
            images,
            allocations,
            swapchain_images,
            upto,
            (count - 1) as nat,
        );
    }
}

/// Resolving images touches no persistent table, no buffer and no queue of
/// the ring, and keeps the transient images that were there; on success it
/// yields one resource for each entry. Resolving no image changes nothing.
pub proof fn lemma_resolve_images_frame(
    state: ManagerState,
    images: Seq<ImageGraphResource>,
    allocations: Seq<Allocation>,
    swapchain_images: Seq<AcquiredSwapchainImage>,
    count: nat,
)
    requires
        count <= images.len(),
    ensures
        ({
            let (after, outcome) = state.resolve_images_upto(
                images,
                allocations,
                swapchain_images,
                count,
            );
            &&& after == (ManagerState {
                storage_image_slots: after.storage_image_slots,
                sampled_image_slots: after.sampled_image_slots,
                transient_images: after.transient_images,
                ..state
            })
            &&& state.transient_images.is_prefix_of(after.transient_images)
            &&& outcome matches Ok(resolved) ==> resolved.len() == count
        }),
        images.len() == 0 ==> state.resolve_images(images, allocations, swapchain_images) == (
            state,
            Ok::<Seq<ImageTempResource>, Error>(Seq::empty()),
        ),
    decreases count,
{
    if count > 0 {
        lemma_resolve_images_frame(
            state,
            images,
            allocations,
            swapchain_images,
            (count - 1) as nat,
        );
    }
}

impl ResourceManager {
    /// Resolves one image of a graph.
    fn resolve_image(
        &mut self,
        description: &ImageResourceDescription,
        allocation: Allocation,
        images: &[ImageGraphResource],
        swapchain_images: &[AcquiredSwapchainImage],
    ) -> (r: Result<ImageTempResource, Error>)
        requires
            old(self).wf(),
        ensures
            final(self).wf(),
            (final(self)@, r) == old(self)@.resolve_image(
                *description,
                allocation,
                images@,
                swapchain_images@,
            ),
    {
        match description {
            ImageResourceDescription::Persistent(key) => match self.get_image_resource(*key) {
                Some(i) => Ok(ImageTempResource { image: i.image, last_usage: i.last_usage }),
                None => Err(Error::InvalidHandle),
            },
            ImageResourceDescription::Transient(description) => {
                match get_transient_image_size(
                    &description.size,
                    self,
                    images,
                    swapchain_images,
                    images.len(),
                ) {
                    Ok(size) => match allocation {
                        Allocation::Created(handle) => self.add_transient_image(
                            description,
                            size,
                            handle,
                        ),
                        Allocation::Failed(e) => Err(e),
                        Allocation::Unused => Err(Error::AllocationFailure),
                    },
                    Err(e) => Err(e),
                }
            },
            ImageResourceDescription::Swapchain(index) => {
                if *index < swapchain_images.len() {
                    Ok(
                        ImageTempResource {
                            image: swapchain_images[*index].image,
                            last_usage: ImageResourceAccess::Unused,
                        },
                    )
                } else {
                    Err(Error::InvalidHandle)
                }
            },
        }
    }

    /// Resolves the images of a graph, in order. `allocations[i]` is the
    /// device object created for entry `i`, if it is transient.
    ///
    /// Returns one resource per entry, or the error of the first entry that
    /// fails. Transient images resolved before a failure stay registered
    /// until the next flush.
    pub fn get_image_resources(
        &mut self,
        swapchain_images: &[AcquiredSwapchainImage],
        images: &[ImageGraphResource],
        allocations: &[Allocation],
    ) -> (r: Result<Vec<ImageTempResource>, Error>)
        requires
            old(self).wf(),
        ensures
            final(self).wf(),
            final(self)@ == old(self)@.resolve_images(images@, allocations@, swapchain_images@).0,
            r matches Ok(resolved) ==> old(self)@.resolve_images(
                images@,
                allocations@,
                swapchain_images@,
            ).1 == Ok::<Seq<ImageTempResource>, Error>(resolved@),
            r matches Err(e) ==> old(self)@.resolve_images(
                images@,
                allocations@,
                swapchain_images@,
            ).1 == Err::<Seq<ImageTempResource>, Error>(e),
            images@.len() == 0 ==> r is Ok && final(self)@ == old(self)@,
    {
        let mut resolved: Vec<ImageTempResource> = Vec::new();
        let mut i: usize = 0;
        while i < images.len()
            invariant
                i <= images.len(),
                self.wf(),
                old(self)@.resolve_images_upto(
                    images@,
                    allocations@,
                    swapchain_images@,
                    i as nat,
                ) == (self@, Ok::<Seq<ImageTempResource>, Error>(resolved@)),
            decreases images.len() - i,
        {
            let allocation = allocation_at(allocations, i);
            match self.resolve_image(&images[i].description, allocation, images, swapchain_images) {
                Ok(resource) => {
                    resolved.push(resource);
                },
                Err(e) => {
                    proof {
                        lemma_image_failure_is_final(
                            old(self)@,
                            images@,
                            allocations@,
                            swapchain_images@,
                            (i + 1) as nat,
                            images@.len(),
                        );
                    }
                    return Err(e);
                },
            }
            i += 1;
        }
        Ok(resolved)
    }
}

/// What has to be created for image `index` of a graph before the graph can
/// be resolved: for a transient image the image of its description at its
/// resolved size, or the error that its size ends in; for any other image
/// nothing.
pub open spec fn image_to_create(
    state: ManagerState,
    images: Seq<ImageGraphResource>,
    swapchain_images: Seq<AcquiredSwapchainImage>,
    index: int,
) -> Result<Option<ImageDescription2D>, Error> {
    match images[index].description {
        ImageResourceDescription::Transient(description) => match transient_image_size(
            description.size,
            state,
            images,
            swapchain_images,
            images.len(),
        ) {
            Ok(size) => Ok(
                Some(
                    ImageDescription2D {
                        size: [size.width, size.height],
                        format: description.format,
                        usage: description.usage,
                        location: description.location,
                    },
                ),
            ),
            Err(e) => Err(e),
        },
        _ => Ok(None),
    }
}

impl ResourceManager {
    /// Lists, for each image of a graph, what has to be created for it
    /// before the graph is resolved. Fails with the error of the first
    /// transient image whose size is not found.
    pub fn transient_image_descriptions(
        &self,
        swapchain_images: &[AcquiredSwapchainImage],
        images: &[ImageGraphResource],
    ) -> (r: Result<Vec<Option<ImageDescription2D>>, Error>)
        requires
            self.wf(),
        ensures
            r matches Ok(listed) ==> listed@.len() == images@.len() && forall|i: int|
                0 <= i < images@.len() ==> image_to_create(
                    self@,
                    images@,
                    swapchain_images@,
                    i,
                ) == Ok::<Option<ImageDescription2D>, Error>(#[trigger] listed@[i]),
            r matches Err(e) ==> exists|i: int|
                0 <= i < images@.len() && #[trigger] image_to_create(
                    self@,
                    images@,
                    swapchain_images@,
                    i,
                ) == Err::<Option<ImageDescription2D>, Error>(e) && forall|j: int|
                    0 <= j < i ==> (#[trigger] image_to_create(
                        self@,
                        images@,
                        swapchain_images@,
                        j,
                    )) is Ok,
    {
        let mut listed: Vec<Option<ImageDescription2D>> = Vec::new();
        let mut i: usize = 0;
        while i < images.len()
            invariant
                i <= images.len(),
                self.wf(),
                listed@.len() == i,
                forall|j: int|
                    0 <= j < i ==> image_to_create(self@, images@, swapchain_images@, j) == Ok::<
                        Option<ImageDescription2D>,
                        Error,
                    >(#[trigger] listed@[j]),
            decreases images.len() - i,
        {
            match &images[i].description {
                ImageResourceDescription::Transient(description) => {
                    match get_transient_image_size(
                        &description.size,
                        self,
                        images,
                        swapchain_images,
                        images.len(),
                    ) {
                        Ok(size) => {
                            listed.push(
                                Some(description.to_image_description([size.width, size.height])),
                            );
                        },
                        Err(e) => {
                            proof {
                                assert forall|j: int| 0 <= j < i implies (#[trigger] image_to_create(
                                    self@,
                                    images@,
                                    swapchain_images@,
                                    j,
                                )) is Ok by {
                                    assert(image_to_create(self@, images@, swapchain_images@, j)
                                        == Ok::<Option<ImageDescription2D>, Error>(listed@[j]));
                                }
                                assert(image_to_create(self@, images@, swapchain_images@, i as int)
                                    == Err::<Option<ImageDescription2D>, Error>(e));
                            }
                            return Err(e);
                        },
                    }
                },
                _ => {
                    listed.push(None);
                },
            }
            i += 1;
        }
        Ok(listed)
    }
}

} // verus!
