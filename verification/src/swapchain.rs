//! Swapchains: what to ask of the presentation engine, when to rebuild, and
//! which surface owns which swapchain.
//!
//! The presentation engine itself is out of reach here. The caller queries
//! it, hands over what it reported as plain values, and carries out what
//! these functions decide.

use crate::error::Error;
use crate::flags::{
    COMPOSITE_ALPHA_OPAQUE, FORMAT_B8G8R8A8_UNORM, FORMAT_UNDEFINED, IMAGE_USAGE_TRANSFER_DST,
    PRESENT_MODE_FIFO, PRESENT_MODE_MAILBOX, RESULT_SUBOPTIMAL, SHARING_MODE_EXCLUSIVE,
};
use crate::resource::{Extent2D, SurfaceHandle};
use std::collections::HashMap;
use vstd::prelude::*;

verus! {

/// What a surface can do, as the presentation engine reports it.
#[derive(Debug, Copy, Clone, PartialEq, Eq, Structural)]
pub struct SurfaceCapabilities {
    pub min_image_count: u32,
    pub max_image_count: u32,
    /// The extent the surface has now; a width of `u32::MAX` means that the
    /// swapchain decides the extent.
    pub current_extent: Extent2D,
    pub min_image_extent: Extent2D,
    pub max_image_extent: Extent2D,
    pub current_transform: u32,
}

/// A format and colour space that a surface supports.
#[derive(Debug, Copy, Clone, PartialEq, Eq, Structural)]
pub struct SurfaceFormat {
    pub format: i32,
    pub color_space: i32,
}

/// Everything queried of a surface before a swapchain is built for it.
#[derive(Debug, Clone)]
pub struct SwapchainSupportDetails {
    pub capabilities: SurfaceCapabilities,
    pub formats: Vec<SurfaceFormat>,
    pub present_modes: Vec<i32>,
}

/// `value` brought into the range from `min` to `max`.
pub open spec fn clamped(value: u32, min: u32, max: u32) -> u32 {
    if value < min {
        min
    } else if value > max {
        max
    } else {
        value
    }
}

/// Brings `value` into the range from `min` to `max`.
pub fn clamp_u32(value: u32, min: u32, max: u32) -> (r: u32)
    requires
        min <= max,
    ensures
        r == clamped(value, min, max),
        min <= r <= max,
{
    if value < min {
        min
    } else if value > max {
        max
    } else {
        value
    }
}

/// `index` is the first place at which `formats` holds the format `desired`.
pub open spec fn is_first_format(formats: Seq<SurfaceFormat>, desired: i32, index: int) -> bool {
    &&& 0 <= index < formats.len()
    &&& formats[index].format == desired
    &&& forall|j: int| 0 <= j < index ==> (#[trigger] formats[j]).format != desired
}

/// The first place at which `formats` holds the format `desired`, if any.
pub open spec fn first_format_index(formats: Seq<SurfaceFormat>, desired: i32) -> Option<int> {
    if exists|i: int| is_first_format(formats, desired, i) {
        Some(choose|i: int| is_first_format(formats, desired, i))
    } else {
        None
    }
}

/// A first place is the only one, and there is none where the format occurs
/// nowhere.
pub proof fn lemma_first_format(formats: Seq<SurfaceFormat>, desired: i32, index: int)
    ensures
        is_first_format(formats, desired, index) ==> first_format_index(formats, desired) == Some(
            index,
        ),
        (forall|j: int| 0 <= j < formats.len() ==> (#[trigger] formats[j]).format != desired)
            ==> first_format_index(formats, desired) is None,
{
}

impl SwapchainSupportDetails {
    /// Puts together what was queried of a surface.
    pub fn new(
        capabilities: SurfaceCapabilities,
        formats: Vec<SurfaceFormat>,
        present_modes: Vec<i32>,
    ) -> (details: Self)
        ensures
            details.capabilities == capabilities,
            details.formats == formats,
            details.present_modes == present_modes,
    {
        Self { capabilities, formats, present_modes }
    }

    /// The surface fixes the extent of its swapchain.
    pub open spec fn extent_is_fixed(&self) -> bool {
        self.capabilities.current_extent.width != u32::MAX
    }

    /// A swapchain can be planned from these details: there is a format and
    /// a present mode to fall back on, and no range is empty.
    pub open spec fn usable(&self) -> bool {
        &&& self.formats@.len() > 0
        &&& self.present_modes@.len() > 0
        &&& self.capabilities.min_image_count <= self.capabilities.max_image_count
        &&& !self.extent_is_fixed() ==> self.capabilities.min_image_extent.width
            <= self.capabilities.max_image_extent.width
            && self.capabilities.min_image_extent.height
            <= self.capabilities.max_image_extent.height
    }

    /// Tests [`SwapchainSupportDetails::usable`].
    pub fn is_usable(&self) -> (r: bool)
        ensures
            r == self.usable(),
    {
        self.formats.len() > 0 && self.present_modes.len() > 0
            && self.capabilities.min_image_count <= self.capabilities.max_image_count && (
        self.capabilities.current_extent.width != u32::MAX || (
        self.capabilities.min_image_extent.width <= self.capabilities.max_image_extent.width
            && self.capabilities.min_image_extent.height
            <= self.capabilities.max_image_extent.height))
    }

    /// The extent of the swapchain: the surface's own if it fixes one, else
    /// the desired extent brought within the limits of the surface.
    pub open spec fn size_for(&self, desired_size: Extent2D) -> Extent2D {
        if self.extent_is_fixed() {
            self.capabilities.current_extent
        } else {
            Extent2D {
                width: clamped(
                    desired_size.width,
                    self.capabilities.min_image_extent.width,
                    self.capabilities.max_image_extent.width,
                ),
                height: clamped(
                    desired_size.height,
                    self.capabilities.min_image_extent.height,
                    self.capabilities.max_image_extent.height,
                ),
            }
        }
    }

    /// Chooses the extent of the swapchain.
    pub fn get_size(&self, desired_size: Extent2D) -> (size: Extent2D)
        requires
            !self.extent_is_fixed() ==> self.capabilities.min_image_extent.width
                <= self.capabilities.max_image_extent.width
                && self.capabilities.min_image_extent.height
                <= self.capabilities.max_image_extent.height,
        ensures
            size == self.size_for(desired_size),
    {
        if self.capabilities.current_extent.width != u32::MAX {
            return self.capabilities.current_extent;
        }
        Extent2D {
            width: clamp_u32(
                desired_size.width,
                self.capabilities.min_image_extent.width,
                self.capabilities.max_image_extent.width,
            ),
            height: clamp_u32(
                desired_size.height,
                self.capabilities.min_image_extent.height,
                self.capabilities.max_image_extent.height,
            ),
        }
    }

    /// The surface format for a desired format: the first supported entry of
    /// that format, else the first supported entry.
    pub open spec fn format_for(&self, desired_format: i32) -> SurfaceFormat {
        match first_format_index(self.formats@, desired_format) {
            Some(index) => self.formats@[index],
            None => self.formats@[0],
        }
    }

    /// Chooses the surface format.
    pub fn get_format(&self, desired_format: i32) -> (chosen: SurfaceFormat)
        requires
            self.formats@.len() > 0,
        ensures
            chosen == self.format_for(desired_format),
    {
        let mut i: usize = 0;
        while i < self.formats.len()
            invariant
                i <= self.formats@.len(),
                forall|j: int| 0 <= j < i ==> (#[trigger] self.formats@[j]).format != desired_format,
            decreases self.formats@.len() - i,
        {
            if self.formats[i].format == desired_format {
                proof {
                    lemma_first_format(self.formats@, desired_format, i as int);
                }
                return self.formats[i];
            }
            i += 1;
        }
        proof {
            lemma_first_format(self.formats@, desired_format, 0);
        }
        self.formats[0]
    }

    /// Chooses the present mode: the desired one if it is supported, else
    /// the first supported one.
    pub fn get_present_mode(&self, desired_mode: i32) -> (chosen: i32)
        requires
            self.present_modes@.len() > 0,
        ensures
            chosen == (if self.present_modes@.contains(desired_mode) {
                desired_mode
            } else {
                self.present_modes@[0]
            }),
    {
        let mut i: usize = 0;
        while i < self.present_modes.len()
            invariant
                i <= self.present_modes@.len(),
                forall|j: int| 0 <= j < i ==> self.present_modes@[j] != desired_mode,
            decreases self.present_modes@.len() - i,
        {
            if self.present_modes[i] == desired_mode {
                return desired_mode;
            }
            i += 1;
        }
        self.present_modes[0]
    }

    /// Chooses the number of images: the desired number brought within the
    /// limits of the surface.
    pub fn get_image_count(&self, desired_count: u32) -> (count: u32)
        requires
            self.capabilities.min_image_count <= self.capabilities.max_image_count,
        ensures
            count == clamped(
                desired_count,
                self.capabilities.min_image_count,
                self.capabilities.max_image_count,
            ),
    {
        clamp_u32(
            desired_count,
            self.capabilities.min_image_count,
            self.capabilities.max_image_count,
        )
    }
}

/// Where a swapchain stands in its life.
#[derive(Debug, Copy, Clone, PartialEq, Eq, Structural)]
pub enum SwapchainState {
    /// It has been made but not built yet.
    Unconfigured,
    /// It is built and can present.
    Configured,
    /// It was destroyed, for good.
    Released,
}

/// What happens to a swapchain.
#[derive(Debug, Copy, Clone, PartialEq, Eq, Structural)]
pub enum SwapchainEvent {
    Configure,
    Release,
}

/// The state of a swapchain after an event: configuring builds or rebuilds
/// it, in place; releasing destroys it; and a released swapchain stays
/// released whatever follows.
pub open spec fn swapchain_step(state: SwapchainState, event: SwapchainEvent) -> SwapchainState {
    match (state, event) {
        (SwapchainState::Released, _) => SwapchainState::Released,
        (_, SwapchainEvent::Configure) => SwapchainState::Configured,
        (_, SwapchainEvent::Release) => SwapchainState::Released,
    }
}

impl SwapchainState {
    /// Advances the state by one event.
    pub fn on_event(self, event: SwapchainEvent) -> (next: SwapchainState)
        ensures
            next == swapchain_step(self, event),
    {
        match (self, event) {
            (SwapchainState::Released, _) => SwapchainState::Released,
            (_, SwapchainEvent::Configure) => SwapchainState::Configured,
            (_, SwapchainEvent::Release) => SwapchainState::Released,
        }
    }
}

/// Released is final, and configuring anything else leaves it configured.
pub proof fn lemma_swapchain_lifecycle(state: SwapchainState, event: SwapchainEvent)
    ensures
        state is Released ==> swapchain_step(state, event) is Released,
        !(state is Released) && event is Configure ==> swapchain_step(state, event) is Configured,
        event is Release ==> swapchain_step(state, event) is Released,
        !(swapchain_step(state, event) is Unconfigured),
{
}

/// The parameters with which a swapchain is created.
#[derive(Debug, Copy, Clone, PartialEq, Eq, Structural)]
pub struct SwapchainCreateInfo {
    pub min_image_count: u32,
    pub image_format: i32,
    pub image_color_space: i32,
    pub image_extent: Extent2D,
    pub image_array_layers: u32,
    pub image_usage: u32,
    pub image_sharing_mode: i32,
    pub pre_transform: u32,
    pub composite_alpha: u32,
    pub present_mode: i32,
    pub clipped: bool,
    /// The swapchain that the new one replaces; zero if there is none.
    pub old_swapchain: u64,
}

/// How many images a swapchain asks for unless told otherwise.
pub const DESIRED_IMAGE_COUNT: u32 = 3;

/// What the caller would like the swapchain of a surface to be. Each wish is
/// met as far as the surface allows.
#[derive(Debug, Copy, Clone, PartialEq, Eq, Structural)]
pub struct SurfaceSettings {
    pub image_count: u32,
    pub format: i32,
    pub size: Extent2D,
    pub present_mode: i32,
}

impl Default for SurfaceSettings {
    /// Three images of 8-bit BGRA in mailbox mode, at the surface's own
    /// extent.
    fn default() -> (settings: SurfaceSettings)
        ensures
            settings == (SurfaceSettings {
                image_count: DESIRED_IMAGE_COUNT,
                format: FORMAT_B8G8R8A8_UNORM,
                size: Extent2D { width: 0, height: 0 },
                present_mode: PRESENT_MODE_MAILBOX,
            }),
    {
        SurfaceSettings {
            image_count: DESIRED_IMAGE_COUNT,
            format: FORMAT_B8G8R8A8_UNORM,
            size: Extent2D { width: 0, height: 0 },
            present_mode: PRESENT_MODE_MAILBOX,
        }
    }
}

/// One presentable surface's swapchain.
#[derive(Debug, Clone)]
pub struct Swapchain {
    pub surface: SurfaceHandle,
    pub settings: SurfaceSettings,
    pub state: SwapchainState,
    /// Raw handle of the swapchain; zero before the first build.
    pub handle: u64,
    pub format: i32,
    pub size: Extent2D,
    pub mode: i32,
    /// Raw handles of the swapchain's images.
    pub images: Vec<u64>,
}

impl Swapchain {
    /// A swapchain for `surface` that has not been built yet.
    pub fn new(surface: SurfaceHandle, settings: SurfaceSettings) -> (swapchain: Swapchain)
        ensures
            swapchain.surface == surface,
            swapchain.settings == settings,
            swapchain.state == SwapchainState::Unconfigured,
            swapchain.handle == 0,
            swapchain.format == FORMAT_UNDEFINED,
            swapchain.size == (Extent2D { width: 0, height: 0 }),
            swapchain.mode == PRESENT_MODE_FIFO,
            swapchain.images@.len() == 0,
    {
        Swapchain {
            surface,
            settings,
            state: SwapchainState::Unconfigured,
            handle: 0,
            format: FORMAT_UNDEFINED,
            size: Extent2D { width: 0, height: 0 },
            mode: PRESENT_MODE_FIFO,
            images: Vec::new(),
        }
    }

    /// Takes new settings over; they take effect with the next rebuild.
    pub fn update_settings(&mut self, settings: &SurfaceSettings)
        ensures
            *final(self) == old(self).with_settings(*settings),
    {
        self.settings = *settings;
    }

    /// This swapchain with other settings.
    pub open spec fn with_settings(self, settings: SurfaceSettings) -> Swapchain {
        Swapchain { settings, ..self }
    }

    /// The parameters of the swapchain that replaces this one: format,
    /// present mode, number of images and extent as the settings wish and the
    /// surface allows, and this swapchain as the one to retire.
    pub open spec fn rebuild_info(&self, support: SwapchainSupportDetails) -> SwapchainCreateInfo {
        let surface_format = support.format_for(self.settings.format);
        SwapchainCreateInfo {
            min_image_count: clamped(
                self.settings.image_count,
                support.capabilities.min_image_count,
                support.capabilities.max_image_count,
            ),
            image_format: surface_format.format,
            image_color_space: surface_format.color_space,
            image_extent: support.size_for(self.settings.size),
            image_array_layers: 1,
            image_usage: IMAGE_USAGE_TRANSFER_DST,
            image_sharing_mode: SHARING_MODE_EXCLUSIVE,
            pre_transform: support.capabilities.current_transform,
            composite_alpha: COMPOSITE_ALPHA_OPAQUE,
            present_mode: if support.present_modes@.contains(self.settings.present_mode) {
                self.settings.present_mode
            } else {
                support.present_modes@[0]
            },
            clipped: true,
            old_swapchain: self.handle,
        }
    }

    /// Decides the parameters of the swapchain that replaces this one.
    pub fn plan_rebuild(&self, support: &SwapchainSupportDetails) -> (info: SwapchainCreateInfo)
        requires
            support.usable(),
        ensures
            info == self.rebuild_info(*support),
    {
        let present_mode = support.get_present_mode(self.settings.present_mode);
        let surface_format = support.get_format(self.settings.format);
        let image_count = support.get_image_count(self.settings.image_count);
        let surface_size = support.get_size(self.settings.size);
        SwapchainCreateInfo {
            min_image_count: image_count,
            image_format: surface_format.format,
            image_color_space: surface_format.color_space,
            image_extent: surface_size,
            image_array_layers: 1,
            image_usage: IMAGE_USAGE_TRANSFER_DST,
            image_sharing_mode: SHARING_MODE_EXCLUSIVE,
            pre_transform: support.capabilities.current_transform,
            composite_alpha: COMPOSITE_ALPHA_OPAQUE,
            present_mode,
            clipped: true,
            old_swapchain: self.handle,
        }
    }

    /// Records that the swapchain was built or rebuilt with `info`, as
    /// `handle`, with the images `images`. Returns the handle of the swapchain
    /// retired. A released swapchain is not rebuilt: nothing changes and
    /// nothing is returned.
    pub fn rebuilt(&mut self, info: &SwapchainCreateInfo, handle: u64, images: Vec<u64>) -> (retired:
        Option<u64>)
        ensures
            final(self).surface == old(self).surface,
            final(self).settings == old(self).settings,
            final(self).state == swapchain_step(old(self).state, SwapchainEvent::Configure),
            old(self).state is Released ==> retired is None && *final(self) == *old(self),
            !(old(self).state is Released) ==> {
                &&& retired == Some(old(self).handle)
                &&& final(self).handle == handle
                &&& final(self).format == info.image_format
                &&& final(self).size == info.image_extent
                &&& final(self).mode == info.present_mode
                &&& final(self).images == images
            },
    {
        if self.state == SwapchainState::Released {
            return None;
        }
        let retired = self.handle;
        self.state = SwapchainState::Configured;
        self.handle = handle;
        self.format = info.image_format;
        self.size = info.image_extent;
        self.mode = info.present_mode;
        self.images = images;
        Some(retired)
    }

    /// Marks the swapchain as destroyed.
    pub fn release(&mut self)
        ensures
            final(self).state == swapchain_step(old(self).state, SwapchainEvent::Release),
            final(self).surface == old(self).surface,
            final(self).settings == old(self).settings,
            final(self).handle == old(self).handle,
            final(self).format == old(self).format,
            final(self).size == old(self).size,
            final(self).mode == old(self).mode,
            final(self).images == old(self).images,
    {
        self.state = SwapchainState::Released;
    }
}

/// How often a swapchain is rebuilt on the way to one acquired image.
pub const MAX_REBUILDS: u32 = 1;

/// What the presentation engine answered to a request for the next image.
#[derive(Debug, Copy, Clone, PartialEq, Eq, Structural)]
pub enum AcquireEvent {
    /// An image was acquired; `suboptimal` says that the swapchain no longer
    /// matches the surface exactly.
    Acquired { index: u32, suboptimal: bool },
    /// The request failed with this result code.
    Failed(i32),
}

/// What to do about the answer.
#[derive(Debug, Copy, Clone, PartialEq, Eq, Structural)]
pub enum AcquireAction {
    /// Render to the image of this index.
    Use(u32),
    /// Rebuild the swapchain and ask again.
    RebuildAndRetry,
    /// Give up with this error.
    Fail(Error),
}

/// How far one acquisition has come.
#[derive(Debug, Copy, Clone, PartialEq, Eq, Structural)]
pub struct AcquireState {
    /// Rebuilds made so far.
    pub rebuilds: u32,
}

/// Whether an answer calls for a rebuild: the image is suboptimal, or the
/// request failed because surface or swapchain are out of date or lost.
pub open spec fn calls_for_rebuild(event: AcquireEvent) -> bool {
    match event {
        AcquireEvent::Acquired { index, suboptimal } => suboptimal,
        AcquireEvent::Failed(code) => code == RESULT_SUBOPTIMAL || crate::error::classify_result(
            code,
        ) is SwapchainLost,
    }
}

/// The action for an answer, and the state after it.
///
/// A usable image is used. An answer that calls for a rebuild gets one while
/// the budget lasts, and ends in a lost swapchain when it is spent. Any other
/// failure surfaces as it is classified.
pub open spec fn acquire_step(state: AcquireState, event: AcquireEvent) -> (
    AcquireState,
    AcquireAction,
) {
    if calls_for_rebuild(event) {
        if state.rebuilds < MAX_REBUILDS {
            (AcquireState { rebuilds: (state.rebuilds + 1) as u32 }, AcquireAction::RebuildAndRetry)
        } else {
            (state, AcquireAction::Fail(Error::SwapchainLost))
        }
    } else {
        match event {
            AcquireEvent::Acquired { index, suboptimal } => (state, AcquireAction::Use(index)),
            AcquireEvent::Failed(code) => (
                state,
                AcquireAction::Fail(crate::error::classify_result(code)),
            ),
        }
    }
}

impl AcquireState {
    /// The state at the start of an acquisition.
    pub fn new() -> (state: AcquireState)
        ensures
            state.rebuilds == 0,
    {
        AcquireState { rebuilds: 0 }
    }

    /// Decides what to do about an answer of the presentation engine.
    pub fn on_event(&mut self, event: AcquireEvent) -> (action: AcquireAction)
        ensures
            (*final(self), action) == acquire_step(*old(self), event),
    {
        let rebuild = match event {
            AcquireEvent::Acquired { index, suboptimal } => suboptimal,
            AcquireEvent::Failed(code) => code == RESULT_SUBOPTIMAL || Error::from_result_code(
                code,
            ).is_recoverable(),
        };
        if rebuild {
            if self.rebuilds < MAX_REBUILDS {
                self.rebuilds = self.rebuilds + 1;
                AcquireAction::RebuildAndRetry
            } else {
                AcquireAction::Fail(Error::SwapchainLost)
            }
        } else {
            match event {
                AcquireEvent::Acquired { index, suboptimal } => AcquireAction::Use(index),
                AcquireEvent::Failed(code) => AcquireAction::Fail(Error::from_result_code(code)),
            }
        }
    }
}

/// The action taken on the last of `events`, after the earlier ones have
/// each been answered by a rebuild; `None` if an earlier event already ended
/// the acquisition, or if there is no event.
pub open spec fn acquire_outcome(events: Seq<AcquireEvent>) -> Option<AcquireAction>
    decreases events.len(),
{
    if events.len() == 0 {
        None
    } else {
        Some(acquire_step(acquire_state_after(events.drop_last()), events.last()).1)
    }
}

/// The state after `events`, as long as each was answered by a rebuild.
pub open spec fn acquire_state_after(events: Seq<AcquireEvent>) -> AcquireState
    decreases events.len(),
{
    if events.len() == 0 {
        AcquireState { rebuilds: 0 }
    } else {
        acquire_step(acquire_state_after(events.drop_last()), events.last()).0
    }
}

/// An acquisition never asks for more than [`MAX_REBUILDS`] rebuilds: the
/// count of rebuilds never passes the budget, so the answer to the event
/// after the budget is spent is an image or an error, never another rebuild.
pub proof fn lemma_acquire_is_bounded(events: Seq<AcquireEvent>)
    ensures
        acquire_state_after(events).rebuilds <= MAX_REBUILDS,
        acquire_state_after(events).rebuilds <= events.len(),
        events.len() > MAX_REBUILDS && (forall|i: int|
            0 <= i < events.len() ==> calls_for_rebuild(#[trigger] events[i])) ==> acquire_outcome(
            events,
        ) == Some(AcquireAction::Fail(Error::SwapchainLost)),
    decreases events.len(),
{
    if events.len() > 0 {
        lemma_acquire_is_bounded(events.drop_last());
        if events.len() > MAX_REBUILDS && (forall|i: int|
            0 <= i < events.len() ==> calls_for_rebuild(#[trigger] events[i])) {
            lemma_rebuilds_counted(events.drop_last());
        }
    }
}

/// While every answer calls for a rebuild, each is given one until the
/// budget is spent.
pub proof fn lemma_rebuilds_counted(events: Seq<AcquireEvent>)
    requires
        forall|i: int| 0 <= i < events.len() ==> calls_for_rebuild(#[trigger] events[i]),
    ensures
        acquire_state_after(events).rebuilds == (if events.len() <= MAX_REBUILDS {
            events.len()
        } else {
            MAX_REBUILDS as nat
        }),
    decreases events.len(),
{
    if events.len() > 0 {
        let before = events.drop_last();
        lemma_rebuilds_counted(before);
    }
}

/// What `configure_surface` asks the caller to do.
#[derive(Debug, Copy, Clone, PartialEq, Eq, Structural)]
pub enum ConfigureAction {
    /// Create a swapchain for the surface and hand it to
    /// [`SwapchainManager::add`].
    Create,
    /// Rebuild the swapchain that has this raw handle.
    Reconfigure(u64),
}

/// What configuring `surface` asks of the caller.
pub open spec fn configure_action(
    swapchains: Map<u64, Swapchain>,
    surface: SurfaceHandle,
) -> ConfigureAction {
    if swapchains.contains_key(surface.0) {
        ConfigureAction::Reconfigure(swapchains[surface.0].handle)
    } else {
        ConfigureAction::Create
    }
}

/// The swapchains after `surface` has been configured with `settings`: its
/// swapchain, if it has one, holds the new settings.
pub open spec fn reconfigured(
    swapchains: Map<u64, Swapchain>,
    surface: SurfaceHandle,
    settings: SurfaceSettings,
) -> Map<u64, Swapchain> {
    if swapchains.contains_key(surface.0) {
        swapchains.insert(surface.0, swapchains[surface.0].with_settings(settings))
    } else {
        swapchains
    }
}

/// The swapchains, one for each configured surface.
pub struct SwapchainManager {
    pub swapchains: HashMap<u64, Swapchain>,
}

impl SwapchainManager {
    /// A manager without any swapchain.
    pub fn new() -> (manager: SwapchainManager)
        ensures
            manager.swapchains@ == Map::<u64, Swapchain>::empty(),
    {
        SwapchainManager { swapchains: HashMap::new() }
    }

    /// Decides how `surface` is configured with `settings`: by creating a
    /// swapchain if it has none; otherwise by rebuilding the one it has, which
    /// takes the settings over at once.
    pub fn configure_surface(
        &mut self,
        surface: SurfaceHandle,
        settings: &SurfaceSettings,
    ) -> (action: ConfigureAction)
        ensures
            final(self).swapchains@ == reconfigured(old(self).swapchains@, surface, *settings),
            action == configure_action(old(self).swapchains@, surface),
    {
        match self.swapchains.remove(&surface.0) {
            Some(mut swapchain) => {
                let handle = swapchain.handle;
                swapchain.update_settings(settings);
                self.swapchains.insert(surface.0, swapchain);
                ConfigureAction::Reconfigure(handle)
            },
            None => {
                ConfigureAction::Create
            },
        }
    }

    /// Installs the swapchain of a surface, in place of the one the surface
    /// had, which is returned.
    pub fn add(&mut self, swapchain: Swapchain) -> (replaced: Option<Swapchain>)
        ensures
            final(self).swapchains@ == old(self).swapchains@.insert(swapchain.surface.0, swapchain),
            replaced == (if old(self).swapchains@.contains_key(swapchain.surface.0) {
                Some(old(self).swapchains@[swapchain.surface.0])
            } else {
                None
            }),
    {
        let surface = swapchain.surface.0;
        self.swapchains.insert(surface, swapchain)
    }

    /// The swapchain of a surface, if it has one.
    pub fn get(&self, surface: SurfaceHandle) -> (r: Option<&Swapchain>)
        ensures
            r is Some <==> self.swapchains@.contains_key(surface.0),
            r matches Some(swapchain) ==> *swapchain == self.swapchains@[surface.0],
    {
        self.swapchains.get(&surface.0)
    }

    /// Tests whether `surface` has a swapchain.
    pub fn is_configured(&self, surface: SurfaceHandle) -> (r: bool)
        ensures
            r == self.swapchains@.contains_key(surface.0),
    {
        self.swapchains.contains_key(&surface.0)
    }

    /// Removes the swapchain of a surface and returns it, released, for
    /// destruction. A surface without a swapchain changes nothing.
    pub fn release_surface(&mut self, surface: SurfaceHandle) -> (released: Option<Swapchain>)
        ensures
            final(self).swapchains@ == old(self).swapchains@.remove(surface.0),
            released is Some <==> old(self).swapchains@.contains_key(surface.0),
            released matches Some(swapchain) ==> {
                let held = old(self).swapchains@[surface.0];
                &&& swapchain.state is Released
                &&& swapchain.settings == held.settings
                &&& swapchain.surface == held.surface
                &&& swapchain.handle == held.handle
                &&& swapchain.images == held.images
            },
    {
        match self.swapchains.remove(&surface.0) {
            Some(mut swapchain) => {
                swapchain.release();
                Some(swapchain)
            },
            None => None,
        }
    }
}

} // verus!
