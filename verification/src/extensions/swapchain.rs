//! Swapchain extension: presentation-capable image chains.
//!
//! The device-scoped wrapper binds the device-level table to the device it
//! was resolved against; the instance-scoped wrapper holds the
//! instance-level table, whose operations take their scope handle as an
//! argument. The two address spaces are separate: a table loaded with the
//! wrong scope's resolver simply ends up with null slots.

use crate::adapter::flagged_or_status;
use crate::adapter::ok_or_status;
use crate::adapter::value_or_status;
use crate::dispatch::Dispatch;
use crate::dispatch::RawCall;
use crate::fetch::fetch_records;
use crate::fetch::FetchError;
use crate::fetch::MAX_FETCH_RECORDS;
use crate::loader::lemma_loading_is_pure;
use crate::loader::loaded_from;
use crate::loader::resolver_fixed;
use crate::loader::resolver_total;
use crate::loader::resolves;
use crate::loader::FnSlot;
use crate::vk;
use vstd::prelude::*;

verus! {

/// The canonical registration name of this extension.
pub fn extension_name() -> (r: &'static str)
    ensures
        r@ == "VK_KHR_swapchain"@,
{
    "VK_KHR_swapchain"
}

/// The device-scoped function table of the swapchain extension: one slot
/// per operation, resolved once at load, null where unavailable.
#[derive(Clone, Copy, PartialEq, Eq, Structural, Debug)]
pub struct KhrSwapchainDeviceFn {
    pub create_swapchain_khr: FnSlot,
    pub destroy_swapchain_khr: FnSlot,
    pub get_swapchain_images_khr: FnSlot,
    pub acquire_next_image_khr: FnSlot,
    pub queue_present_khr: FnSlot,
    pub get_device_group_present_capabilities_khr: FnSlot,
    pub get_device_group_surface_present_modes_khr: FnSlot,
    pub acquire_next_image2_khr: FnSlot,
}

impl KhrSwapchainDeviceFn {
    /// The entry-point names of this table's slots, in slot order.
    pub open spec fn names_spec() -> Seq<Seq<char>> {
        seq![
            "vkCreateSwapchainKHR"@,
            "vkDestroySwapchainKHR"@,
            "vkGetSwapchainImagesKHR"@,
            "vkAcquireNextImageKHR"@,
            "vkQueuePresentKHR"@,
            "vkGetDeviceGroupPresentCapabilitiesKHR"@,
            "vkGetDeviceGroupSurfacePresentModesKHR"@,
            "vkAcquireNextImage2KHR"@,
        ]
    }

    /// This table's slots, in the order of `names_spec`.
    pub open spec fn slots_spec(self) -> Seq<FnSlot> {
        seq![
            self.create_swapchain_khr,
            self.destroy_swapchain_khr,
            self.get_swapchain_images_khr,
            self.acquire_next_image_khr,
            self.queue_present_khr,
            self.get_device_group_present_capabilities_khr,
            self.get_device_group_surface_present_modes_khr,
            self.acquire_next_image2_khr,
        ]
    }

    /// Resolves every slot of this table, once each, against the given
    /// resolver. A name the resolver answers null for stays a null slot;
    /// loading itself always succeeds.
    pub fn load<F: Fn(&'static str) -> FnSlot>(resolver: F) -> (r: Self)
        requires
            resolver_total(resolver),
        ensures
            loaded_from(resolver, Self::names_spec(), r.slots_spec()),
    {
        let n0: &'static str = "vkCreateSwapchainKHR";
        let n1: &'static str = "vkDestroySwapchainKHR";
        let n2: &'static str = "vkGetSwapchainImagesKHR";
        let n3: &'static str = "vkAcquireNextImageKHR";
        let n4: &'static str = "vkQueuePresentKHR";
        let n5: &'static str = "vkGetDeviceGroupPresentCapabilitiesKHR";
        let n6: &'static str = "vkGetDeviceGroupSurfacePresentModesKHR";
        let n7: &'static str = "vkAcquireNextImage2KHR";
        let r = KhrSwapchainDeviceFn {
            create_swapchain_khr: resolver(n0),
            destroy_swapchain_khr: resolver(n1),
            get_swapchain_images_khr: resolver(n2),
            acquire_next_image_khr: resolver(n3),
            queue_present_khr: resolver(n4),
            get_device_group_present_capabilities_khr: resolver(n5),
            get_device_group_surface_present_modes_khr: resolver(n6),
            acquire_next_image2_khr: resolver(n7),
        };
        proof {
            assert(resolves(resolver, Self::names_spec()[0], r.slots_spec()[0]));
            assert(resolves(resolver, Self::names_spec()[1], r.slots_spec()[1]));
            assert(resolves(resolver, Self::names_spec()[2], r.slots_spec()[2]));
            assert(resolves(resolver, Self::names_spec()[3], r.slots_spec()[3]));
            assert(resolves(resolver, Self::names_spec()[4], r.slots_spec()[4]));
            assert(resolves(resolver, Self::names_spec()[5], r.slots_spec()[5]));
            assert(resolves(resolver, Self::names_spec()[6], r.slots_spec()[6]));
            assert(resolves(resolver, Self::names_spec()[7], r.slots_spec()[7]));
        }
        r
    }
}

/// Swapchain images decoded from one reply word each.
fn decode_images(words: &Vec<u64>) -> (r: Vec<vk::Image>)
    ensures
        r@.len() == words@.len(),
        forall|i: int| 0 <= i < r@.len() ==> r@[i].raw == words@[i],
{
    let mut r: Vec<vk::Image> = Vec::new();
    let mut i: usize = 0;
    while i < words.len()
        invariant
            i <= words@.len(),
            r@.len() == i,
            forall|j: int| 0 <= j < i ==> r@[j].raw == words@[j],
        decreases words@.len() - i,
    {
        r.push(vk::Image { raw: words[i] });
        i = i + 1;
    }
    r
}

/// Rectangles decoded from four reply words each.
fn decode_rects(words: &Vec<u64>, count: u32) -> (r: Vec<vk::Rect2D>)
    requires
        words@.len() == count * 4,
    ensures
        r@.len() == count,
        forall|i: int|
            0 <= i < r@.len() ==> r@[i] == vk::Rect2D::from_words_spec(
                words@[4 * i],
                words@[4 * i + 1],
                words@[4 * i + 2],
                words@[4 * i + 3],
            ),
{
    let len = words.len();
    let mut r: Vec<vk::Rect2D> = Vec::new();
    let mut i: usize = 0;
    let mut base: usize = 0;
    while i < count as usize
        invariant
            i <= count,
            base == 4 * i,
            len == words@.len(),
            words@.len() == count * 4,
            r@.len() == i,
            forall|j: int|
                0 <= j < i ==> r@[j] == vk::Rect2D::from_words_spec(
                    words@[4 * j],
                    words@[4 * j + 1],
                    words@[4 * j + 2],
                    words@[4 * j + 3],
                ),
        decreases count - i,
    {
        r.push(vk::Rect2D::from_words(words[base], words[base + 1], words[base + 2], words[base + 3]));
        i = i + 1;
        base = base + 4;
    }
    r
}

/// Device-scoped wrapper: the swapchain device table bound to the device
/// it was resolved against. A lightweight descriptor — duplicating it does
/// not re-resolve anything.
#[derive(Clone, Copy, PartialEq, Eq, Structural, Debug)]
pub struct SwapchainDevice {
    pub handle: vk::Device,
    pub fp: KhrSwapchainDeviceFn,
}

impl SwapchainDevice {
    /// Builds the table with a device-scoped resolver and binds it to the
    /// device it was resolved against. Every call through the wrapper
    /// implicitly targets that device.
    pub fn new<F: Fn(&'static str) -> FnSlot>(resolver: F, device: vk::Device) -> (r: Self)
        requires
            resolver_total(resolver),
        ensures
            r.handle == device,
            loaded_from(resolver, KhrSwapchainDeviceFn::names_spec(), r.fp.slots_spec()),
    {
        let fp = KhrSwapchainDeviceFn::load(resolver);
        SwapchainDevice { handle: device, fp }
    }

    /// Creates a swapchain; success carries the new handle, any other
    /// status comes back verbatim as the error.
    pub fn create_swapchain<D: Dispatch>(
        &self,
        dispatcher: &mut D,
        create_info: &vk::SwapchainCreateInfoKHR,
        allocation_callbacks: Option<&vk::AllocationCallbacks>,
    ) -> (r: Result<vk::SwapchainKHR, vk::Status>)
        requires
            !self.fp.create_swapchain_khr.is_null_spec(),
        ensures
            r is Err ==> !(r->Err_0 is Success),
    {
        let mut args = create_info.words();
        args.push(vk::definitions::alloc_word(allocation_callbacks));
        let call = RawCall {
            addr: self.fp.create_swapchain_khr.addr,
            handle: self.handle.raw,
            args,
            capacity: None,
        };
        let reply = dispatcher.call(&call);
        value_or_status(reply.status, vk::SwapchainKHR { raw: reply.word })
    }

    /// Destroys a swapchain: fire-and-forget, no status at this layer.
    pub fn destroy_swapchain<D: Dispatch>(
        &self,
        dispatcher: &mut D,
        swapchain: vk::SwapchainKHR,
        allocation_callbacks: Option<&vk::AllocationCallbacks>,
    )
        requires
            !self.fp.destroy_swapchain_khr.is_null_spec(),
    {
        let mut args: Vec<u64> = Vec::new();
        args.push(swapchain.raw);
        args.push(vk::definitions::alloc_word(allocation_callbacks));
        let call = RawCall {
            addr: self.fp.destroy_swapchain_khr.addr,
            handle: self.handle.raw,
            args,
            capacity: None,
        };
        let _ = dispatcher.call(&call);
    }

    /// Retrieves the swapchain's images through the count-then-fill
    /// protocol; a native failure propagates verbatim, an unstable count
    /// past the retry bound is the protocol-violation error.
    pub fn get_swapchain_images<D: Dispatch>(
        &self,
        dispatcher: &mut D,
        swapchain: vk::SwapchainKHR,
    ) -> (r: Result<Vec<vk::Image>, FetchError>)
        requires
            !self.fp.get_swapchain_images_khr.is_null_spec(),
        ensures
            r is Ok ==> r->Ok_0@.len() <= MAX_FETCH_RECORDS,
            r is Err && r->Err_0 is Native ==> !(r->Err_0->Native_0 is Success),
    {
        let mut args: Vec<u64> = Vec::new();
        args.push(swapchain.raw);
        match fetch_records(dispatcher, self.fp.get_swapchain_images_khr, self.handle.raw, args, 1) {
            Ok((words, _count)) => Ok(decode_images(&words)),
            Err(e) => Err(e),
        }
    }

    /// Acquires the next image: success carries the image index and
    /// whether the swapchain is degraded for its surface; the degraded
    /// status is success with the flag, never an error.
    pub fn acquire_next_image<D: Dispatch>(
        &self,
        dispatcher: &mut D,
        swapchain: vk::SwapchainKHR,
        timeout: u64,
        semaphore: vk::Semaphore,
        fence: vk::Fence,
    ) -> (r: Result<(u32, bool), vk::Status>)
        requires
            !self.fp.acquire_next_image_khr.is_null_spec(),
        ensures
            r is Err ==> !(r->Err_0 is Success) && !(r->Err_0 is Suboptimal),
    {
        let mut args: Vec<u64> = Vec::new();
        args.push(swapchain.raw);
        args.push(timeout);
        args.push(semaphore.raw);
        args.push(fence.raw);
        let call = RawCall {
            addr: self.fp.acquire_next_image_khr.addr,
            handle: self.handle.raw,
            args,
            capacity: None,
        };
        let reply = dispatcher.call(&call);
        flagged_or_status(reply.status, reply.word as u32)
    }

    /// Presents on a queue: success carries whether the swapchain is
    /// degraded for its surface; the degraded status is success with the
    /// flag, never an error.
    pub fn queue_present<D: Dispatch>(
        &self,
        dispatcher: &mut D,
        queue: vk::Queue,
        present_info: &vk::PresentInfoKHR,
    ) -> (r: Result<bool, vk::Status>)
        requires
            !self.fp.queue_present_khr.is_null_spec(),
        ensures
            r is Err ==> !(r->Err_0 is Success) && !(r->Err_0 is Suboptimal),
    {
        let call = RawCall {
            addr: self.fp.queue_present_khr.addr,
            handle: queue.raw,
            args: present_info.words(),
            capacity: None,
        };
        let reply = dispatcher.call(&call);
        match flagged_or_status(reply.status, ()) {
            Ok((_, degraded)) => Ok(degraded),
            Err(status) => Err(status),
        }
    }

    /// Queries the device group's presentation capabilities into the given
    /// out-structure; on an error the structure is left unchanged.
    pub fn get_device_group_present_capabilities<D: Dispatch>(
        &self,
        dispatcher: &mut D,
        device_group_present_capabilities: &mut vk::DeviceGroupPresentCapabilitiesKHR,
    ) -> (r: Result<(), vk::Status>)
        requires
            !self.fp.get_device_group_present_capabilities_khr.is_null_spec(),
        ensures
            r is Err ==> !(r->Err_0 is Success) && *final(device_group_present_capabilities)
                == *old(device_group_present_capabilities),
    {
        let call = RawCall {
            addr: self.fp.get_device_group_present_capabilities_khr.addr,
            handle: self.handle.raw,
            args: Vec::new(),
            capacity: None,
        };
        let reply = dispatcher.call(&call);
        match ok_or_status(reply.status) {
            Ok(()) => {
                *device_group_present_capabilities =
                    vk::DeviceGroupPresentCapabilitiesKHR::from_words(&reply.items);
                Ok(())
            },
            Err(status) => Err(status),
        }
    }

    /// Queries the present modes a surface supports within the device
    /// group; success carries the modes bitmask.
    pub fn get_device_group_surface_present_modes<D: Dispatch>(
        &self,
        dispatcher: &mut D,
        surface: vk::SurfaceKHR,
    ) -> (r: Result<vk::DeviceGroupPresentModeFlagsKHR, vk::Status>)
        requires
            !self.fp.get_device_group_surface_present_modes_khr.is_null_spec(),
        ensures
            r is Err ==> !(r->Err_0 is Success),
    {
        let mut args: Vec<u64> = Vec::new();
        args.push(surface.raw);
        let call = RawCall {
            addr: self.fp.get_device_group_surface_present_modes_khr.addr,
            handle: self.handle.raw,
            args,
            capacity: None,
        };
        let reply = dispatcher.call(&call);
        value_or_status(reply.status, vk::DeviceGroupPresentModeFlagsKHR { raw: reply.word as u32 })
    }

    /// Acquires the next image with device-group parameters: success
    /// carries the image index and the degraded flag, as for
    /// `acquire_next_image`.
    pub fn acquire_next_image2<D: Dispatch>(
        &self,
        dispatcher: &mut D,
        acquire_info: &vk::AcquireNextImageInfoKHR,
    ) -> (r: Result<(u32, bool), vk::Status>)
        requires
            !self.fp.acquire_next_image2_khr.is_null_spec(),
        ensures
            r is Err ==> !(r->Err_0 is Success) && !(r->Err_0 is Suboptimal),
    {
        let call = RawCall {
            addr: self.fp.acquire_next_image2_khr.addr,
            handle: self.handle.raw,
            args: acquire_info.words(),
            capacity: None,
        };
        let reply = dispatcher.call(&call);
        flagged_or_status(reply.status, reply.word as u32)
    }

    /// Read access to the underlying function table, for manual invocation
    /// past the typed methods.
    pub fn fp(&self) -> (r: &KhrSwapchainDeviceFn)
        ensures
            *r == self.fp,
    {
        &self.fp
    }

    /// The device this table was resolved against.
    pub fn device(&self) -> (r: vk::Device)
        ensures
            r == self.handle,
    {
        self.handle
    }
}

/// Two independently constructed device wrappers over one resolver
/// behaviour and one handle are interchangeable: construction is pure, so
/// the wrappers are equal and every call through one goes exactly as
/// through the other.
pub proof fn lemma_wrappers_interchangeable<F: Fn(&'static str) -> FnSlot>(
    resolver: F,
    addresses: spec_fn(Seq<char>) -> u64,
    first: SwapchainDevice,
    second: SwapchainDevice,
)
    requires
        first.handle == second.handle,
        loaded_from(resolver, KhrSwapchainDeviceFn::names_spec(), first.fp.slots_spec()),
        loaded_from(resolver, KhrSwapchainDeviceFn::names_spec(), second.fp.slots_spec()),
        resolver_fixed(resolver, addresses),
    ensures
        first == second,
{
    lemma_loading_is_pure(
        resolver,
        addresses,
        KhrSwapchainDeviceFn::names_spec(),
        first.fp.slots_spec(),
        second.fp.slots_spec(),
    );
    assert(first.fp.slots_spec()[0] == second.fp.slots_spec()[0]);
    assert(first.fp.slots_spec()[1] == second.fp.slots_spec()[1]);
    assert(first.fp.slots_spec()[2] == second.fp.slots_spec()[2]);
    assert(first.fp.slots_spec()[3] == second.fp.slots_spec()[3]);
    assert(first.fp.slots_spec()[4] == second.fp.slots_spec()[4]);
    assert(first.fp.slots_spec()[5] == second.fp.slots_spec()[5]);
    assert(first.fp.slots_spec()[6] == second.fp.slots_spec()[6]);
    assert(first.fp.slots_spec()[7] == second.fp.slots_spec()[7]);
}

/// The instance-scoped function table of the swapchain extension.
#[derive(Clone, Copy, PartialEq, Eq, Structural, Debug)]
pub struct KhrSwapchainInstanceFn {
    pub get_physical_device_present_rectangles_khr: FnSlot,
}

impl KhrSwapchainInstanceFn {
    /// The entry-point names of this table's slots, in slot order.
    pub open spec fn names_spec() -> Seq<Seq<char>> {
        seq!["vkGetPhysicalDevicePresentRectanglesKHR"@]
    }

    /// This table's slots, in the order of `names_spec`.
    pub open spec fn slots_spec(self) -> Seq<FnSlot> {
        seq![self.get_physical_device_present_rectangles_khr]
    }

    /// Resolves every slot of this table against the given resolver; a
    /// null answer stays a null slot.
    pub fn load<F: Fn(&'static str) -> FnSlot>(resolver: F) -> (r: Self)
        requires
            resolver_total(resolver),
        ensures
            loaded_from(resolver, Self::names_spec(), r.slots_spec()),
    {
        let n0: &'static str = "vkGetPhysicalDevicePresentRectanglesKHR";
        let r = KhrSwapchainInstanceFn { get_physical_device_present_rectangles_khr: resolver(n0) };
        proof {
            assert(resolves(resolver, Self::names_spec()[0], r.slots_spec()[0]));
        }
        r
    }
}

/// Instance-scoped wrapper: holds the instance-level table; its operations
/// take the physical device they target as an argument.
#[derive(Clone, Copy, PartialEq, Eq, Structural, Debug)]
pub struct SwapchainInstance {
    pub fp: KhrSwapchainInstanceFn,
}

impl SwapchainInstance {
    /// Builds the table with an instance-scoped resolver.
    pub fn new<F: Fn(&'static str) -> FnSlot>(resolver: F) -> (r: Self)
        requires
            resolver_total(resolver),
        ensures
            loaded_from(resolver, KhrSwapchainInstanceFn::names_spec(), r.fp.slots_spec()),
    {
        let fp = KhrSwapchainInstanceFn::load(resolver);
        SwapchainInstance { fp }
    }

    /// Retrieves the presentation rectangles of a surface on a physical
    /// device through the count-then-fill protocol.
    pub fn get_physical_device_present_rectangles<D: Dispatch>(
        &self,
        dispatcher: &mut D,
        physical_device: vk::PhysicalDevice,
        surface: vk::SurfaceKHR,
    ) -> (r: Result<Vec<vk::Rect2D>, FetchError>)
        requires
            !self.fp.get_physical_device_present_rectangles_khr.is_null_spec(),
        ensures
            r is Ok ==> r->Ok_0@.len() <= MAX_FETCH_RECORDS,
            r is Err && r->Err_0 is Native ==> !(r->Err_0->Native_0 is Success),
    {
        let mut args: Vec<u64> = Vec::new();
        args.push(surface.raw);
        match fetch_records(
            dispatcher,
            self.fp.get_physical_device_present_rectangles_khr,
            physical_device.raw,
            args,
            4,
        ) {
            Ok((words, count)) => Ok(decode_rects(&words, count)),
            Err(e) => Err(e),
        }
    }

    /// Read access to the underlying function table, for manual invocation
    /// past the typed methods.
    pub fn fp(&self) -> (r: &KhrSwapchainInstanceFn)
        ensures
            *r == self.fp,
    {
        &self.fp
    }
}

} // verus!
