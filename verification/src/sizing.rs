//! Sizes of transient images.
//!
//! A transient image is sized outright or as a fraction of another image,
//! which may itself be sized relative to a third. The chain is followed to
//! the first image of known size, through at most as many transient images
//! as the graph has; a chain that runs in a circle therefore ends in an
//! error, not in a loop.

use crate::error::Error;
use crate::render_graph::{
    AcquiredSwapchainImage, ImageGraphResource, ImageResourceDescription, Scale,
    TransientImageSize,
};
use crate::resource::{Extent2D, ImageHandle, ImageKey};
use crate::resource_manager::{image_at, ManagerState, ResourceManager};
use vstd::prelude::*;
use vstd::set_lib::{lemma_int_range, lemma_len_subset, set_int_range};

verus! {

/// The size of the persistent image under `key`.
pub open spec fn persistent_image_size(state: ManagerState, key: ImageKey) -> Result<
    Extent2D,
    Error,
> {
    match image_at(state, key) {
        Some(i) => Ok(i.image.size),
        None => Err(Error::InvalidHandle),
    }
}

/// The size that `size` stands for. `depth` is how many transient images the
/// chain may still pass through.
///
/// - An exact size is itself.
/// - A size relative to a persistent image, or to a graph image that is
///   persistent or a swapchain image, is that image's size, scaled. A key
///   that is not live, or an index out of range, is an invalid handle.
/// - A size relative to a transient graph image is that image's own size,
///   found in the same way with one less depth, and scaled; with no depth
///   left it is a recursion-limit error.
pub open spec fn transient_image_size(
    size: TransientImageSize,
    state: ManagerState,
    images: Seq<ImageGraphResource>,
    swapchain_images: Seq<AcquiredSwapchainImage>,
    depth: nat,
) -> Result<Extent2D, Error>
    decreases depth,
{
    match size {
        TransientImageSize::Exact(extent) => Ok(extent),
        TransientImageSize::Relative(scale, target) => {
            let base = match target {
                ImageHandle::Persistent(key) => persistent_image_size(state, key),
                ImageHandle::Transient(index) => if index >= images.len() {
                    Err(Error::InvalidHandle)
                } else {
                    match images[index as int].description {
                        ImageResourceDescription::Persistent(key) => persistent_image_size(
                            state,
                            key,
                        ),
                        ImageResourceDescription::Transient(description) => if depth == 0 {
                            Err(Error::RecursionLimit)
                        } else {
                            transient_image_size(
                                description.size,
                                state,
                                images,
                                swapchain_images,
                                (depth - 1) as nat,
                            )
                        },
                        ImageResourceDescription::Swapchain(swapchain_index) => if swapchain_index
                            < swapchain_images.len() {
                            Ok(swapchain_images[swapchain_index as int].image.size)
                        } else {
                            Err(Error::InvalidHandle)
                        },
                    }
                },
            };
            match base {
                Ok(extent) => Ok(
                    Extent2D {
                        width: scale[0].scaled(extent.width),
                        height: scale[1].scaled(extent.height),
                    },
                ),
                Err(e) => Err(e),
            }
        },
    }
}

/// Looks up the size of a persistent image.
fn get_persistent_image_size(manager: &ResourceManager, key: ImageKey) -> (r: Result<
    Extent2D,
    Error,
>)
    requires
        manager.wf(),
    ensures
        r == persistent_image_size(manager@, key),
{
    match manager.get_image(key) {
        Some(image) => Ok(image.size),
        None => Err(Error::InvalidHandle),
    }
}

/// Finds the size that `size` stands for, passing through at most `depth`
/// transient images.
pub fn get_transient_image_size(
    size: &TransientImageSize,
    persistent: &ResourceManager,
    images: &[ImageGraphResource],
    swapchain_images: &[AcquiredSwapchainImage],
    depth: usize,
) -> (r: Result<Extent2D, Error>)
    requires
        persistent.wf(),
    ensures
        r == transient_image_size(*size, persistent@, images@, swapchain_images@, depth as nat),
    decreases depth,
{
    match size {
        TransientImageSize::Exact(extent) => Ok(*extent),
        TransientImageSize::Relative(scale, target) => {
            let base = match target {
                ImageHandle::Persistent(key) => get_persistent_image_size(persistent, *key),
                ImageHandle::Transient(index) => {
                    if *index >= images.len() {
                        Err(Error::InvalidHandle)
                    } else {
                        match &images[*index].description {
                            ImageResourceDescription::Persistent(key) => get_persistent_image_size(
                                persistent,
                                *key,
                            ),
                            ImageResourceDescription::Transient(description) => {
                                if depth == 0 {
                                    Err(Error::RecursionLimit)
                                } else {
                                    get_transient_image_size(
                                        &description.size,
                                        persistent,
                                        images,
                                        swapchain_images,
                                        depth - 1,
                                    )
                                }
                            },
                            ImageResourceDescription::Swapchain(swapchain_index) => {
                                if *swapchain_index < swapchain_images.len() {
                                    Ok(swapchain_images[*swapchain_index].image.size)
                                } else {
                                    Err(Error::InvalidHandle)
                                }
                            },
                        }
                    }
                },
            };
            match base {
                Ok(extent) => Ok(
                    Extent2D {
                        width: scale[0].apply(extent.width),
                        height: scale[1].apply(extent.height),
                    },
                ),
                Err(e) => Err(e),
            }
        },
    }
}

/// The graph image that transient image `index` is sized relative to, if it
/// is sized relative to a graph image.
pub open spec fn relative_to(images: Seq<ImageGraphResource>, index: int) -> Option<int> {
    if 0 <= index < images.len() {
        match images[index].description {
            ImageResourceDescription::Transient(description) => match description.size {
                TransientImageSize::Relative(_, ImageHandle::Transient(next)) => Some(next as int),
                _ => None,
            },
            _ => None,
        }
    } else {
        None
    }
}

/// Every image of `nodes` is a transient image of the graph sized relative
/// to another image of `nodes`.
pub open spec fn closed_under_links(images: Seq<ImageGraphResource>, nodes: Set<int>) -> bool {
    forall|i: int|
        #![trigger nodes.contains(i)]
        nodes.contains(i) ==> relative_to(images, i) is Some && nodes.contains(
            relative_to(images, i)->0,
        )
}

/// The size declared for transient image `index` of the graph; an empty
/// extent for anything else.
pub open spec fn declared_size(images: Seq<ImageGraphResource>, index: int) -> TransientImageSize {
    if 0 <= index < images.len() {
        match images[index].description {
            ImageResourceDescription::Transient(description) => description.size,
            _ => TransientImageSize::Exact(Extent2D { width: 0, height: 0 }),
        }
    } else {
        TransientImageSize::Exact(Extent2D { width: 0, height: 0 })
    }
}

/// A chain of relative sizes that never leaves a set of transient images
/// (a cycle, in a finite graph) has no size: whatever the depth allowed, the
/// result is the recursion-limit error.
pub proof fn lemma_cyclic_size_fails(
    state: ManagerState,
    images: Seq<ImageGraphResource>,
    swapchain_images: Seq<AcquiredSwapchainImage>,
    nodes: Set<int>,
    index: int,
    depth: nat,
)
    requires
        closed_under_links(images, nodes),
        nodes.contains(index),
    ensures
        transient_image_size(declared_size(images, index), state, images, swapchain_images, depth)
            == Err::<Extent2D, Error>(Error::RecursionLimit),
    decreases depth,
{
    let size = declared_size(images, index);
    match size {
        TransientImageSize::Relative(_, ImageHandle::Transient(next)) => {
            if depth > 0 {
                lemma_cyclic_size_fails(
                    state,
                    images,
                    swapchain_images,
                    nodes,
                    next as int,
                    (depth - 1) as nat,
                );
            }
        },
        _ => {},
    }
}

/// Two transient images sized relative to each other have no size.
pub proof fn lemma_mutual_size_fails(
    state: ManagerState,
    images: Seq<ImageGraphResource>,
    swapchain_images: Seq<AcquiredSwapchainImage>,
    a: int,
    b: int,
    depth: nat,
)
    requires
        relative_to(images, a) == Some(b),
        relative_to(images, b) == Some(a),
    ensures
        transient_image_size(declared_size(images, a), state, images, swapchain_images, depth)
            == Err::<Extent2D, Error>(Error::RecursionLimit),
        transient_image_size(declared_size(images, b), state, images, swapchain_images, depth)
            == Err::<Extent2D, Error>(Error::RecursionLimit),
{
    let nodes = set![a, b];
    lemma_cyclic_size_fails(state, images, swapchain_images, nodes, a, depth);
    lemma_cyclic_size_fails(state, images, swapchain_images, nodes, b, depth);
}

/// A size relative to a swapchain image of the graph is that image's size,
/// scaled, at any depth.
pub proof fn lemma_swapchain_relative_size(
    scale: [Scale; 2],
    index: usize,
    slot: usize,
    state: ManagerState,
    images: Seq<ImageGraphResource>,
    swapchain_images: Seq<AcquiredSwapchainImage>,
    depth: nat,
)
    requires
        index < images.len(),
        images[index as int].description == ImageResourceDescription::Swapchain(slot),
        slot < swapchain_images.len(),
    ensures
        transient_image_size(
            TransientImageSize::Relative(scale, ImageHandle::Transient(index)),
            state,
            images,
            swapchain_images,
            depth,
        ) == Ok::<Extent2D, Error>(
            Extent2D {
                width: scale[0].scaled(swapchain_images[slot as int].image.size.width),
                height: scale[1].scaled(swapchain_images[slot as int].image.size.height),
            },
        ),
{
}

/// The transient image of the graph that transient image `index` is sized
/// relative to, if there is one: the next image on its chain.
pub open spec fn chain_link(images: Seq<ImageGraphResource>, index: int) -> Option<int> {
    match relative_to(images, index) {
        Some(next) => if 0 <= next < images.len() && images[next].description is Transient {
            Some(next)
        } else {
            None
        },
        None => None,
    }
}

/// The chain of image `index` has at least `links` links.
pub open spec fn chain_reaches(images: Seq<ImageGraphResource>, index: int, links: nat) -> bool
    decreases links,
{
    if links == 0 {
        true
    } else {
        match chain_link(images, index) {
            Some(next) => chain_reaches(images, next, (links - 1) as nat),
            None => false,
        }
    }
}

/// The image that the chain of image `index` reaches after `links` links.
pub open spec fn chain_node(images: Seq<ImageGraphResource>, index: int, links: nat) -> int
    decreases links,
{
    if links == 0 {
        index
    } else {
        match chain_link(images, index) {
            Some(next) => chain_node(images, next, (links - 1) as nat),
            None => index,
        }
    }
}

/// The size of a transient image ends in the recursion limit exactly when
/// its chain has more links than the depth allows.
pub proof fn lemma_limit_is_chain_length(
    state: ManagerState,
    images: Seq<ImageGraphResource>,
    swapchain_images: Seq<AcquiredSwapchainImage>,
    index: int,
    depth: nat,
)
    ensures
        transient_image_size(declared_size(images, index), state, images, swapchain_images, depth)
            == Err::<Extent2D, Error>(Error::RecursionLimit) <==> chain_reaches(
            images,
            index,
            depth + 1,
        ),
    decreases depth,
{
    match chain_link(images, index) {
        Some(next) => {
            assert(chain_reaches(images, index, depth + 1) == chain_reaches(images, next, depth));
            if depth > 0 {
                lemma_limit_is_chain_length(
                    state,
                    images,
                    swapchain_images,
                    next,
                    (depth - 1) as nat,
                );
            }
        },
        None => {
        },
    }
}

/// Along a chain with `links` links, every image but the last has the next
/// as its link, and every image is an image of the graph.
proof fn lemma_chain_nodes(images: Seq<ImageGraphResource>, index: int, links: nat, at: nat)
    requires
        chain_reaches(images, index, links),
        at <= links,
    ensures
        chain_reaches(images, chain_node(images, index, at), (links - at) as nat),
        at < links ==> chain_link(images, chain_node(images, index, at)) == Some(
            chain_node(images, index, at + 1),
        ),
        links > 0 ==> 0 <= chain_node(images, index, at) < images.len(),
    decreases at,
{
    if at > 0 {
        let next = chain_link(images, index)->0;
        lemma_chain_nodes(images, next, (links - 1) as nat, (at - 1) as nat);
    } else if links > 0 {
        let next = chain_link(images, index)->0;
        assert(chain_node(images, index, 1) == chain_node(images, next, 0));
    }
}

/// A chain with at least as many links as the graph has images passes
/// through some image twice.
proof fn lemma_long_chain_repeats(images: Seq<ImageGraphResource>, index: int, links: nat) -> (r: (
    nat,
    nat,
))
    requires
        chain_reaches(images, index, links),
        links >= images.len(),
        links > 0,
    ensures
        r.0 < r.1 <= links,
        chain_node(images, index, r.0) == chain_node(images, index, r.1),
{
    let nodes = Seq::new(links + 1, |k: int| chain_node(images, index, k as nat));
    assert forall|k: int| 0 <= k < nodes.len() implies 0 <= #[trigger] nodes[k] < images.len() by {
        lemma_chain_nodes(images, index, links, k as nat);
    }
    if nodes.no_duplicates() {
        nodes.unique_seq_to_set();
        lemma_int_range(0, images.len() as int);
        lemma_len_subset(nodes.to_set(), set_int_range(0, images.len() as int));
    }
    let (a, b) = choose|a: int, b: int|
        0 <= a < nodes.len() && 0 <= b < nodes.len() && a != b && nodes[a] == nodes[b];
    if a < b {
        (a as nat, b as nat)
    } else {
        (b as nat, a as nat)
    }
}

/// A chain that comes back to an image it has passed never ends.
proof fn lemma_repeating_chain_is_endless(
    state: ManagerState,
    images: Seq<ImageGraphResource>,
    swapchain_images: Seq<AcquiredSwapchainImage>,
    index: int,
    links: nat,
    first: nat,
    second: nat,
    depth: nat,
)
    requires
        chain_reaches(images, index, links),
        first < second <= links,
        chain_node(images, index, first) == chain_node(images, index, second),
    ensures
        transient_image_size(declared_size(images, index), state, images, swapchain_images, depth)
            == Err::<Extent2D, Error>(Error::RecursionLimit),
    decreases first,
{
    if first == 0 {
        let circle = Set::new(
            |x: int| exists|k: nat| k < second && x == #[trigger] chain_node(images, index, k),
        );
        assert(closed_under_links(images, circle)) by {
            assert forall|x: int| #![trigger circle.contains(x)] circle.contains(x)
                implies relative_to(images, x) is Some && circle.contains(
                relative_to(images, x)->0,
            ) by {
                let k = choose|k: nat| k < second && x == #[trigger] chain_node(images, index, k);
                lemma_chain_nodes(images, index, links, k);
                let next = chain_node(images, index, k + 1);
            }
        }
        lemma_cyclic_size_fails(state, images, swapchain_images, circle, index, depth);
    } else {
        let next = chain_link(images, index)->0;
        if depth > 0 {
            lemma_repeating_chain_is_endless(
                state,
                images,
                swapchain_images,
                next,
                (links - 1) as nat,
                (first - 1) as nat,
                (second - 1) as nat,
                (depth - 1) as nat,
            );
        }
    }
}

/// Only a circle hits the limit. If the size of a transient image ends in
/// the recursion limit at a depth of at least the number of images in the
/// graph, which is the depth at which graphs are resolved, then it does so at
/// every depth: its chain of relative sizes comes back to an image it has
/// passed. A chain that ends is therefore always followed to its end.
pub proof fn lemma_limit_means_cycle(
    state: ManagerState,
    images: Seq<ImageGraphResource>,
    swapchain_images: Seq<AcquiredSwapchainImage>,
    index: int,
    depth: nat,
    other_depth: nat,
)
    requires
        depth >= images.len(),
        transient_image_size(declared_size(images, index), state, images, swapchain_images, depth)
            == Err::<Extent2D, Error>(Error::RecursionLimit),
    ensures
        transient_image_size(
            declared_size(images, index),
            state,
            images,
            swapchain_images,
            other_depth,
        ) == Err::<Extent2D, Error>(Error::RecursionLimit),
{
    lemma_limit_is_chain_length(state, images, swapchain_images, index, depth);
    let links = depth + 1;
    let (first, second) = lemma_long_chain_repeats(images, index, links);
    lemma_repeating_chain_is_endless(
        state,
        images,
        swapchain_images,
        index,
        links,
        first,
        second,
        other_depth,
    );
}

} // verus!
