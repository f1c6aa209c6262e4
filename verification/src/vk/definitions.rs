//! Plain-value models of the wire structures that typed operations take and
//! return, each with its exact marshaling into argument words.
//!
//! A structure marshals field by field, in declaration order: handles and
//! scalars as one word each, a variable-length field as its length followed
//! by one word per element. Out-structures decode from reply words the same
//! way; a word the native call did not write reads as zero, matching the
//! zero-initialized buffer the protocol allocates.

use crate::vk::enums::DebugUtilsMessageSeverityFlagsEXT;
use crate::vk::enums::DebugUtilsMessageTypeFlagsEXT;
use crate::vk::enums::DeviceGroupPresentModeFlagsKHR;
use crate::vk::enums::PresentModeKHR;
use crate::vk::enums::SampleCountFlags;
use crate::vk::enums::TimeDomainEXT;
use crate::vk::handles::ObjectType;
use crate::vk::handles::Semaphore;
use crate::vk::handles::SurfaceKHR;
use crate::vk::handles::SwapchainKHR;
use crate::vk::handles::Fence;
use vstd::prelude::*;

verus! {

/// The word a spec-level sequence holds at `i`, zero past its end: the
/// value a zero-initialized buffer position reads as when the native call
/// wrote only a prefix.
pub open spec fn word_at(words: Seq<u64>, i: int) -> u64 {
    if 0 <= i < words.len() {
        words[i]
    } else {
        0u64
    }
}

/// Reads the word at `i`, zero past the end of `words`.
pub fn read_word(words: &Vec<u64>, i: usize) -> (r: u64)
    ensures
        r == word_at(words@, i as int),
{
    if i < words.len() {
        words[i]
    } else {
        0u64
    }
}

/// Host allocation callbacks, carried as an opaque reference; this layer
/// only forwards the raw value (zero when absent).
#[derive(Clone, Copy, PartialEq, Eq, Structural, Debug)]
pub struct AllocationCallbacks {
    pub raw: u64,
}

/// The argument word for an optional allocation-callbacks reference: its
/// raw value, or zero for a null pointer.
pub open spec fn alloc_word_spec(callbacks: Option<&AllocationCallbacks>) -> u64 {
    match callbacks {
        Some(c) => c.raw,
        None => 0u64,
    }
}

pub fn alloc_word(callbacks: Option<&AllocationCallbacks>) -> (r: u64)
    ensures
        r == alloc_word_spec(callbacks),
{
    match callbacks {
        Some(c) => c.raw,
        None => 0u64,
    }
}

/// A two-dimensional signed offset.
#[derive(Clone, Copy, PartialEq, Eq, Structural, Debug)]
pub struct Offset2D {
    pub x: i32,
    pub y: i32,
}

/// A two-dimensional extent.
#[derive(Clone, Copy, PartialEq, Eq, Structural, Debug)]
pub struct Extent2D {
    pub width: u32,
    pub height: u32,
}

/// An axis-aligned rectangle: offset plus extent.
#[derive(Clone, Copy, PartialEq, Eq, Structural, Debug)]
pub struct Rect2D {
    pub offset: Offset2D,
    pub extent: Extent2D,
}

impl Rect2D {
    /// How many reply words one rectangle record occupies.
    pub open spec fn record_words_spec() -> u32 {
        4
    }

    /// The rectangle decoded from four record words.
    pub open spec fn from_words_spec(a: u64, b: u64, c: u64, d: u64) -> Rect2D {
        Rect2D {
            offset: Offset2D { x: a as i32, y: b as i32 },
            extent: Extent2D { width: c as u32, height: d as u32 },
        }
    }

    pub fn from_words(a: u64, b: u64, c: u64, d: u64) -> (r: Rect2D)
        ensures
            r == Rect2D::from_words_spec(a, b, c, d),
    {
        Rect2D {
            offset: Offset2D { x: a as i32, y: b as i32 },
            extent: Extent2D { width: c as u32, height: d as u32 },
        }
    }
}

/// Construction parameters for a swapchain.
#[derive(Clone, PartialEq, Eq, Debug)]
pub struct SwapchainCreateInfoKHR {
    pub surface: SurfaceKHR,
    pub min_image_count: u32,
    pub image_extent: Extent2D,
    pub image_array_layers: u32,
    pub present_mode: PresentModeKHR,
    pub clipped: bool,
    pub old_swapchain: SwapchainKHR,
}

impl SwapchainCreateInfoKHR {
    /// The argument words this structure marshals to, field by field.
    pub open spec fn words_spec(self) -> Seq<u64> {
        seq![
            self.surface.raw,
            self.min_image_count as u64,
            self.image_extent.width as u64,
            self.image_extent.height as u64,
            self.image_array_layers as u64,
            self.present_mode.raw as u64,
            if self.clipped { 1u64 } else { 0u64 },
            self.old_swapchain.raw,
        ]
    }

    pub fn words(&self) -> (r: Vec<u64>)
        ensures
            r@ == self.words_spec(),
    {
        let mut r: Vec<u64> = Vec::new();
        r.push(self.surface.raw);
        r.push(self.min_image_count as u64);
        r.push(self.image_extent.width as u64);
        r.push(self.image_extent.height as u64);
        r.push(self.image_array_layers as u64);
        r.push(self.present_mode.raw as u64);
        r.push(if self.clipped { 1u64 } else { 0u64 });
        r.push(self.old_swapchain.raw);
        proof {
            assert(r@ =~= self.words_spec());
        }
        r
    }
}

/// Presentation request: which swapchains present which image indices,
/// after which semaphores.
#[derive(Clone, PartialEq, Eq, Debug)]
pub struct PresentInfoKHR {
    pub wait_semaphores: Vec<Semaphore>,
    pub swapchains: Vec<SwapchainKHR>,
    pub image_indices: Vec<u32>,
}

impl PresentInfoKHR {
    /// The argument words: each list as its length followed by its raw
    /// elements, in field order.
    pub open spec fn words_spec(self) -> Seq<u64> {
        seq![self.wait_semaphores@.len() as u64]
            + Seq::new(self.wait_semaphores@.len(), |i: int| self.wait_semaphores@[i].raw)
            + seq![self.swapchains@.len() as u64]
            + Seq::new(self.swapchains@.len(), |i: int| self.swapchains@[i].raw)
            + seq![self.image_indices@.len() as u64]
            + Seq::new(self.image_indices@.len(), |i: int| self.image_indices@[i] as u64)
    }

    pub fn words(&self) -> (r: Vec<u64>)
        ensures
            r@ == self.words_spec(),
    {
        let mut r: Vec<u64> = Vec::new();
        r.push(self.wait_semaphores.len() as u64);
        let mut i: usize = 0;
        while i < self.wait_semaphores.len()
            invariant
                i <= self.wait_semaphores@.len(),
                r@ =~= seq![self.wait_semaphores@.len() as u64]
                    + Seq::new(i as nat, |j: int| self.wait_semaphores@[j].raw),
            decreases self.wait_semaphores@.len() - i,
        {
            r.push(self.wait_semaphores[i].raw);
            i = i + 1;
        }
        r.push(self.swapchains.len() as u64);
        let mut i: usize = 0;
        while i < self.swapchains.len()
            invariant
                i <= self.swapchains@.len(),
                r@ =~= seq![self.wait_semaphores@.len() as u64]
                    + Seq::new(self.wait_semaphores@.len(), |j: int| self.wait_semaphores@[j].raw)
                    + seq![self.swapchains@.len() as u64]
                    + Seq::new(i as nat, |j: int| self.swapchains@[j].raw),
            decreases self.swapchains@.len() - i,
        {
            r.push(self.swapchains[i].raw);
            i = i + 1;
        }
        r.push(self.image_indices.len() as u64);
        let mut i: usize = 0;
        while i < self.image_indices.len()
            invariant
                i <= self.image_indices@.len(),
                r@ =~= seq![self.wait_semaphores@.len() as u64]
                    + Seq::new(self.wait_semaphores@.len(), |j: int| self.wait_semaphores@[j].raw)
                    + seq![self.swapchains@.len() as u64]
                    + Seq::new(self.swapchains@.len(), |j: int| self.swapchains@[j].raw)
                    + seq![self.image_indices@.len() as u64]
                    + Seq::new(i as nat, |j: int| self.image_indices@[j] as u64),
            decreases self.image_indices@.len() - i,
        {
            r.push(self.image_indices[i]as u64);
            i = i + 1;
        }
        proof {
            assert(r@ =~= self.words_spec());
        }
        r
    }
}

/// Parameters for acquiring the next image of a swapchain within a device
/// group.
#[derive(Clone, Copy, PartialEq, Eq, Structural, Debug)]
pub struct AcquireNextImageInfoKHR {
    pub swapchain: SwapchainKHR,
    pub timeout: u64,
    pub semaphore: Semaphore,
    pub fence: Fence,
    pub device_mask: u32,
}

impl AcquireNextImageInfoKHR {
    /// The argument words this structure marshals to, field by field.
    pub open spec fn words_spec(self) -> Seq<u64> {
        seq![
            self.swapchain.raw,
            self.timeout,
            self.semaphore.raw,
            self.fence.raw,
            self.device_mask as u64,
        ]
    }

    pub fn words(&self) -> (r: Vec<u64>)
        ensures
            r@ == self.words_spec(),
    {
        let mut r: Vec<u64> = Vec::new();
        r.push(self.swapchain.raw);
        r.push(self.timeout);
        r.push(self.semaphore.raw);
        r.push(self.fence.raw);
        r.push(self.device_mask as u64);
        proof {
            assert(r@ =~= self.words_spec());
        }
        r
    }
}

/// Presentation capabilities of a device group, filled from reply words:
/// the modes bitmask first, then one mask word per physical device.
#[derive(Clone, PartialEq, Eq, Debug)]
pub struct DeviceGroupPresentCapabilitiesKHR {
    pub present_mask: Vec<u32>,
    pub modes: DeviceGroupPresentModeFlagsKHR,
}

impl DeviceGroupPresentCapabilitiesKHR {
    /// The present-mask entries decoded from reply words: each word past
    /// the first is one entry.
    pub open spec fn mask_from_words_spec(words: Seq<u64>) -> Seq<u32> {
        Seq::new(
            if words.len() >= 1 { (words.len() - 1) as nat } else { 0nat },
            |i: int| words[i + 1] as u32,
        )
    }

    /// The modes bitmask decoded from reply words: word zero.
    pub open spec fn modes_from_words_spec(words: Seq<u64>) -> DeviceGroupPresentModeFlagsKHR {
        DeviceGroupPresentModeFlagsKHR { raw: word_at(words, 0) as u32 }
    }

    pub fn from_words(words: &Vec<u64>) -> (r: DeviceGroupPresentCapabilitiesKHR)
        ensures
            r.present_mask@ == Self::mask_from_words_spec(words@),
            r.modes == Self::modes_from_words_spec(words@),
    {
        let modes = DeviceGroupPresentModeFlagsKHR { raw: read_word(words, 0) as u32 };
        let mut present_mask: Vec<u32> = Vec::new();
        let mut i: usize = 1;
        while i < words.len()
            invariant
                1 <= i <= words@.len() || (i == 1 && words@.len() == 0),
                present_mask@ =~= Seq::new((i - 1) as nat, |j: int| words@[j + 1] as u32),
            decreases words@.len() - i,
        {
            present_mask.push(words[i] as u32);
            i = i + 1;
        }
        proof {
            assert(present_mask@ =~= Self::mask_from_words_spec(words@));
        }
        DeviceGroupPresentCapabilitiesKHR { present_mask, modes }
    }
}

/// Names a native object for diagnostics.
#[derive(Clone, Copy, PartialEq, Eq, Structural, Debug)]
pub struct DebugUtilsObjectNameInfoEXT {
    pub object_type: ObjectType,
    pub object_handle: u64,
}

/// The wire code of an object kind.
pub open spec fn object_type_code_spec(t: ObjectType) -> u64 {
    match t {
        ObjectType::Unknown => 0u64,
        ObjectType::Instance => 1u64,
        ObjectType::PhysicalDevice => 2u64,
        ObjectType::Device => 3u64,
        ObjectType::Queue => 4u64,
        ObjectType::Semaphore => 5u64,
        ObjectType::CommandBuffer => 6u64,
        ObjectType::Fence => 7u64,
        ObjectType::Image => 10u64,
        ObjectType::SurfaceKhr => 1000000000u64,
        ObjectType::SwapchainKhr => 1000001000u64,
        ObjectType::DebugUtilsMessengerExt => 1000128000u64,
    }
}

pub fn object_type_code(t: ObjectType) -> (r: u64)
    ensures
        r == object_type_code_spec(t),
{
    match t {
        ObjectType::Unknown => 0u64,
        ObjectType::Instance => 1u64,
        ObjectType::PhysicalDevice => 2u64,
        ObjectType::Device => 3u64,
        ObjectType::Queue => 4u64,
        ObjectType::Semaphore => 5u64,
        ObjectType::CommandBuffer => 6u64,
        ObjectType::Fence => 7u64,
        ObjectType::Image => 10u64,
        ObjectType::SurfaceKhr => 1000000000u64,
        ObjectType::SwapchainKhr => 1000001000u64,
        ObjectType::DebugUtilsMessengerExt => 1000128000u64,
    }
}

impl DebugUtilsObjectNameInfoEXT {
    /// The argument words this structure marshals to, field by field.
    pub open spec fn words_spec(self) -> Seq<u64> {
        seq![object_type_code_spec(self.object_type), self.object_handle]
    }

    pub fn words(&self) -> (r: Vec<u64>)
        ensures
            r@ == self.words_spec(),
    {
        let mut r: Vec<u64> = Vec::new();
        r.push(object_type_code(self.object_type));
        r.push(self.object_handle);
        proof {
            assert(r@ =~= self.words_spec());
        }
        r
    }
}

/// Attaches an opaque tag to a native object for diagnostics.
#[derive(Clone, PartialEq, Eq, Debug)]
pub struct DebugUtilsObjectTagInfoEXT {
    pub object_type: ObjectType,
    pub object_handle: u64,
    pub tag_name: u64,
    pub tag: Vec<u8>,
}

impl DebugUtilsObjectTagInfoEXT {
    /// The argument words: kind code, handle, tag name, then the tag bytes
    /// as their length followed by one word per byte.
    pub open spec fn words_spec(self) -> Seq<u64> {
        seq![
            object_type_code_spec(self.object_type),
            self.object_handle,
            self.tag_name,
            self.tag@.len() as u64,
        ] + Seq::new(self.tag@.len(), |i: int| self.tag@[i] as u64)
    }

    pub fn words(&self) -> (r: Vec<u64>)
        ensures
            r@ == self.words_spec(),
    {
        let mut r: Vec<u64> = Vec::new();
        r.push(object_type_code(self.object_type));
        r.push(self.object_handle);
        r.push(self.tag_name);
        r.push(self.tag.len() as u64);
        let mut i: usize = 0;
        while i < self.tag.len()
            invariant
                i <= self.tag@.len(),
                r@ =~= seq![
                    object_type_code_spec(self.object_type),
                    self.object_handle,
                    self.tag_name,
                    self.tag@.len() as u64,
                ] + Seq::new(i as nat, |j: int| self.tag@[j] as u64),
            decreases self.tag@.len() - i,
        {
            r.push(self.tag[i] as u64);
            i = i + 1;
        }
        proof {
            assert(r@ =~= self.words_spec());
        }
        r
    }
}

/// A named region marker for diagnostics, carried as its label bytes.
#[derive(Clone, PartialEq, Eq, Debug)]
pub struct DebugUtilsLabelEXT {
    pub label_name: Vec<u8>,
}

impl DebugUtilsLabelEXT {
    /// The argument words: the label length followed by one word per byte.
    pub open spec fn words_spec(self) -> Seq<u64> {
        seq![self.label_name@.len() as u64]
            + Seq::new(self.label_name@.len(), |i: int| self.label_name@[i] as u64)
    }

    pub fn words(&self) -> (r: Vec<u64>)
        ensures
            r@ == self.words_spec(),
    {
        let mut r: Vec<u64> = Vec::new();
        r.push(self.label_name.len() as u64);
        let mut i: usize = 0;
        while i < self.label_name.len()
            invariant
                i <= self.label_name@.len(),
                r@ =~= seq![self.label_name@.len() as u64]
                    + Seq::new(i as nat, |j: int| self.label_name@[j] as u64),
            decreases self.label_name@.len() - i,
        {
            r.push(self.label_name[i] as u64);
            i = i + 1;
        }
        proof {
            assert(r@ =~= self.words_spec());
        }
        r
    }
}

/// Construction parameters for a diagnostic messenger: which severities and
/// categories it receives, and the host callback (an opaque address) with
/// its user data.
#[derive(Clone, Copy, PartialEq, Eq, Structural, Debug)]
pub struct DebugUtilsMessengerCreateInfoEXT {
    pub message_severity: DebugUtilsMessageSeverityFlagsEXT,
    pub message_type: DebugUtilsMessageTypeFlagsEXT,
    pub pfn_user_callback: u64,
    pub user_data: u64,
}

impl DebugUtilsMessengerCreateInfoEXT {
    /// The argument words this structure marshals to, field by field.
    pub open spec fn words_spec(self) -> Seq<u64> {
        seq![
            self.message_severity.raw as u64,
            self.message_type.raw as u64,
            self.pfn_user_callback,
            self.user_data,
        ]
    }

    pub fn words(&self) -> (r: Vec<u64>)
        ensures
            r@ == self.words_spec(),
    {
        let mut r: Vec<u64> = Vec::new();
        r.push(self.message_severity.raw as u64);
        r.push(self.message_type.raw as u64);
        r.push(self.pfn_user_callback);
        r.push(self.user_data);
        proof {
            assert(r@ =~= self.words_spec());
        }
        r
    }
}

/// The payload of an injected diagnostic message.
#[derive(Clone, PartialEq, Eq, Debug)]
pub struct DebugUtilsMessengerCallbackDataEXT {
    pub message_id_number: i32,
    pub message: Vec<u8>,
}

impl DebugUtilsMessengerCallbackDataEXT {
    /// The argument words: the message identifier, then the message bytes
    /// as their length followed by one word per byte.
    pub open spec fn words_spec(self) -> Seq<u64> {
        seq![self.message_id_number as u64, self.message@.len() as u64]
            + Seq::new(self.message@.len(), |i: int| self.message@[i] as u64)
    }

    pub fn words(&self) -> (r: Vec<u64>)
        ensures
            r@ == self.words_spec(),
    {
        let mut r: Vec<u64> = Vec::new();
        r.push(self.message_id_number as u64);
        r.push(self.message.len() as u64);
        let mut i: usize = 0;
        while i < self.message.len()
            invariant
                i <= self.message@.len(),
                r@ =~= seq![self.message_id_number as u64, self.message@.len() as u64]
                    + Seq::new(i as nat, |j: int| self.message@[j] as u64),
            decreases self.message@.len() - i,
        {
            r.push(self.message[i] as u64);
            i = i + 1;
        }
        proof {
            assert(r@ =~= self.words_spec());
        }
        r
    }
}

/// Parameters for acquiring the profiling lock.
#[derive(Clone, Copy, PartialEq, Eq, Structural, Debug)]
pub struct AcquireProfilingLockInfoKHR {
    pub flags: u32,
    pub timeout: u64,
}

impl AcquireProfilingLockInfoKHR {
    /// The argument words this structure marshals to, field by field.
    pub open spec fn words_spec(self) -> Seq<u64> {
        seq![self.flags as u64, self.timeout]
    }

    pub fn words(&self) -> (r: Vec<u64>)
        ensures
            r@ == self.words_spec(),
    {
        let mut r: Vec<u64> = Vec::new();
        r.push(self.flags as u64);
        r.push(self.timeout);
        proof {
            assert(r@ =~= self.words_spec());
        }
        r
    }
}

/// Construction parameters for a performance query pool, as far as this
/// layer reads them: the queue family and the chosen counter indices.
#[derive(Clone, PartialEq, Eq, Debug)]
pub struct QueryPoolPerformanceCreateInfoKHR {
    pub queue_family_index: u32,
    pub counter_indices: Vec<u32>,
}

impl QueryPoolPerformanceCreateInfoKHR {
    /// The argument words: the queue family, then the counter indices as
    /// their count followed by one word per index.
    pub open spec fn words_spec(self) -> Seq<u64> {
        seq![self.queue_family_index as u64, self.counter_indices@.len() as u64]
            + Seq::new(self.counter_indices@.len(), |i: int| self.counter_indices@[i] as u64)
    }

    pub fn words(&self) -> (r: Vec<u64>)
        ensures
            r@ == self.words_spec(),
    {
        let mut r: Vec<u64> = Vec::new();
        r.push(self.queue_family_index as u64);
        r.push(self.counter_indices.len() as u64);
        let mut i: usize = 0;
        while i < self.counter_indices.len()
            invariant
                i <= self.counter_indices@.len(),
                r@ =~= seq![self.queue_family_index as u64, self.counter_indices@.len() as u64]
                    + Seq::new(i as nat, |j: int| self.counter_indices@[j] as u64),
            decreases self.counter_indices@.len() - i,
        {
            r.push(self.counter_indices[i] as u64);
            i = i + 1;
        }
        proof {
            assert(r@ =~= self.words_spec());
        }
        r
    }
}

/// Selects the time domain of one calibrated timestamp.
#[derive(Clone, Copy, PartialEq, Eq, Structural, Debug)]
pub struct CalibratedTimestampInfoEXT {
    pub time_domain: TimeDomainEXT,
}

/// Surface query parameters, as far as this layer reads them.
#[derive(Clone, Copy, PartialEq, Eq, Structural, Debug)]
pub struct PhysicalDeviceSurfaceInfo2KHR {
    pub surface: SurfaceKHR,
}

impl PhysicalDeviceSurfaceInfo2KHR {
    /// The argument words this structure marshals to.
    pub open spec fn words_spec(self) -> Seq<u64> {
        seq![self.surface.raw]
    }

    pub fn words(&self) -> (r: Vec<u64>)
        ensures
            r@ == self.words_spec(),
    {
        let mut r: Vec<u64> = Vec::new();
        r.push(self.surface.raw);
        proof {
            assert(r@ =~= self.words_spec());
        }
        r
    }
}

/// One programmable sample position, in fixed-point normalized pixel
/// coordinates.
#[derive(Clone, Copy, PartialEq, Eq, Structural, Debug)]
pub struct SampleLocationEXT {
    pub x_fixed: u32,
    pub y_fixed: u32,
}

/// Custom sample locations for a command buffer.
#[derive(Clone, PartialEq, Eq, Debug)]
pub struct SampleLocationsInfoEXT {
    pub sample_locations_per_pixel: SampleCountFlags,
    pub sample_location_grid_size: Extent2D,
    pub sample_locations: Vec<SampleLocationEXT>,
}

impl SampleLocationsInfoEXT {
    /// The argument words: the per-pixel count, the grid size, then the
    /// locations as their count followed by two words per location.
    pub open spec fn words_spec(self) -> Seq<u64> {
        seq![
            self.sample_locations_per_pixel.raw as u64,
            self.sample_location_grid_size.width as u64,
            self.sample_location_grid_size.height as u64,
            self.sample_locations@.len() as u64,
        ] + Seq::new(
            (self.sample_locations@.len() * 2) as nat,
            |i: int|
                if i % 2 == 0 {
                    self.sample_locations@[i / 2].x_fixed as u64
                } else {
                    self.sample_locations@[i / 2].y_fixed as u64
                },
        )
    }

    pub fn words(&self) -> (r: Vec<u64>)
        ensures
            r@ == self.words_spec(),
    {
        let mut r: Vec<u64> = Vec::new();
        r.push(self.sample_locations_per_pixel.raw as u64);
        r.push(self.sample_location_grid_size.width as u64);
        r.push(self.sample_location_grid_size.height as u64);
        r.push(self.sample_locations.len() as u64);
        let mut i: usize = 0;
        while i < self.sample_locations.len()
            invariant
                i <= self.sample_locations@.len(),
                r@ =~= seq![
                    self.sample_locations_per_pixel.raw as u64,
                    self.sample_location_grid_size.width as u64,
                    self.sample_location_grid_size.height as u64,
                    self.sample_locations@.len() as u64,
                ] + Seq::new(
                    (i * 2) as nat,
                    |j: int|
                        if j % 2 == 0 {
                            self.sample_locations@[j / 2].x_fixed as u64
                        } else {
                            self.sample_locations@[j / 2].y_fixed as u64
                        },
                ),
            decreases self.sample_locations@.len() - i,
        {
            r.push(self.sample_locations[i].x_fixed as u64);
            r.push(self.sample_locations[i].y_fixed as u64);
            i = i + 1;
        }
        proof {
            assert(r@ =~= self.words_spec());
        }
        r
    }
}

/// Multisample properties reported for a physical device, decoded from two
/// reply words.
#[derive(Clone, Copy, PartialEq, Eq, Structural, Debug)]
pub struct MultisamplePropertiesEXT {
    pub max_sample_location_grid_size: Extent2D,
}

impl MultisamplePropertiesEXT {
    /// The properties decoded from reply words: grid width then height.
    pub open spec fn from_words_spec(words: Seq<u64>) -> MultisamplePropertiesEXT {
        MultisamplePropertiesEXT {
            max_sample_location_grid_size: Extent2D {
                width: word_at(words, 0) as u32,
                height: word_at(words, 1) as u32,
            },
        }
    }

    pub fn from_words(words: &Vec<u64>) -> (r: MultisamplePropertiesEXT)
        ensures
            r == Self::from_words_spec(words@),
    {
        MultisamplePropertiesEXT {
            max_sample_location_grid_size: Extent2D {
                width: read_word(words, 0) as u32,
                height: read_word(words, 1) as u32,
            },
        }
    }
}

/// One enumerable performance counter, as far as this layer reads it.
#[derive(Clone, Copy, PartialEq, Eq, Structural, Debug)]
pub struct PerformanceCounterKHR {
    pub unit: u32,
    pub scope: u32,
    pub storage: u32,
}

impl PerformanceCounterKHR {
    /// How many reply words one counter record occupies.
    pub open spec fn record_words_spec() -> u32 {
        3
    }

    /// The counter decoded from three record words.
    pub open spec fn from_words_spec(a: u64, b: u64, c: u64) -> PerformanceCounterKHR {
        PerformanceCounterKHR { unit: a as u32, scope: b as u32, storage: c as u32 }
    }

    pub fn from_words(a: u64, b: u64, c: u64) -> (r: PerformanceCounterKHR)
        ensures
            r == PerformanceCounterKHR::from_words_spec(a, b, c),
    {
        PerformanceCounterKHR { unit: a as u32, scope: b as u32, storage: c as u32 }
    }
}

/// The description record accompanying one performance counter, as far as
/// this layer reads it.
#[derive(Clone, Copy, PartialEq, Eq, Structural, Debug)]
pub struct PerformanceCounterDescriptionKHR {
    pub flags: u32,
}

impl PerformanceCounterDescriptionKHR {
    /// The description decoded from one record word.
    pub open spec fn from_words_spec(a: u64) -> PerformanceCounterDescriptionKHR {
        PerformanceCounterDescriptionKHR { flags: a as u32 }
    }

    pub fn from_words(a: u64) -> (r: PerformanceCounterDescriptionKHR)
        ensures
            r == PerformanceCounterDescriptionKHR::from_words_spec(a),
    {
        PerformanceCounterDescriptionKHR { flags: a as u32 }
    }
}

} // verus!
