//! Full-screen-exclusive extension: exclusive display access for a
//! swapchain.

use crate::adapter::ok_or_status;
use crate::adapter::value_or_status;
use crate::dispatch::Dispatch;
use crate::dispatch::RawCall;
use crate::fetch::fetch_records;
use crate::fetch::FetchError;
use crate::fetch::MAX_FETCH_RECORDS;
use crate::loader::loaded_from;
use crate::loader::resolver_total;
use crate::loader::resolves;
use crate::loader::FnSlot;
use crate::vk;
use vstd::prelude::*;

verus! {

/// The canonical registration name of this extension.
pub fn extension_name() -> (r: &'static str)
    ensures
        r@ == "VK_EXT_full_screen_exclusive"@,
{
    "VK_EXT_full_screen_exclusive"
}

/// The device-scoped function table of the full-screen-exclusive
/// extension.
#[derive(Clone, Copy, PartialEq, Eq, Structural, Debug)]
pub struct ExtFullScreenExclusiveDeviceFn {
    pub acquire_full_screen_exclusive_mode_ext: FnSlot,
    pub release_full_screen_exclusive_mode_ext: FnSlot,
    pub get_device_group_surface_present_modes2_ext: FnSlot,
}

impl ExtFullScreenExclusiveDeviceFn {
    /// The entry-point names of this table's slots, in slot order.
    pub open spec fn names_spec() -> Seq<Seq<char>> {
        seq![
            "vkAcquireFullScreenExclusiveModeEXT"@,
            "vkReleaseFullScreenExclusiveModeEXT"@,
            "vkGetDeviceGroupSurfacePresentModes2EXT"@,
        ]
    }

    /// This table's slots, in the order of `names_spec`.
    pub open spec fn slots_spec(self) -> Seq<FnSlot> {
        seq![
            self.acquire_full_screen_exclusive_mode_ext,
            self.release_full_screen_exclusive_mode_ext,
            self.get_device_group_surface_present_modes2_ext,
        ]
    }

    /// Resolves every slot of this table against the given resolver; a
    /// null answer stays a null slot.
    pub fn load<F: Fn(&'static str) -> FnSlot>(resolver: F) -> (r: Self)
        requires
            resolver_total(resolver),
        ensures
            loaded_from(resolver, Self::names_spec(), r.slots_spec()),
    {
        let n0: &'static str = "vkAcquireFullScreenExclusiveModeEXT";
        let n1: &'static str = "vkReleaseFullScreenExclusiveModeEXT";
        let n2: &'static str = "vkGetDeviceGroupSurfacePresentModes2EXT";
        let r = ExtFullScreenExclusiveDeviceFn {
            acquire_full_screen_exclusive_mode_ext: resolver(n0),
            release_full_screen_exclusive_mode_ext: resolver(n1),
            get_device_group_surface_present_modes2_ext: resolver(n2),
        };
        proof {
            assert(resolves(resolver, Self::names_spec()[0], r.slots_spec()[0]));
            assert(resolves(resolver, Self::names_spec()[1], r.slots_spec()[1]));
            assert(resolves(resolver, Self::names_spec()[2], r.slots_spec()[2]));
        }
        r
    }
}

/// Device-scoped wrapper: the full-screen-exclusive device table bound to
/// the device it was resolved against.
#[derive(Clone, Copy, PartialEq, Eq, Structural, Debug)]
pub struct FullScreenExclusiveDevice {
    pub handle: vk::Device,
    pub fp: ExtFullScreenExclusiveDeviceFn,
}

impl FullScreenExclusiveDevice {
    /// Builds the table with a device-scoped resolver and binds it to the
    /// device it was resolved against.
    pub fn new<F: Fn(&'static str) -> FnSlot>(resolver: F, device: vk::Device) -> (r: Self)
        requires
            resolver_total(resolver),
        ensures
            r.handle == device,
            loaded_from(resolver, ExtFullScreenExclusiveDeviceFn::names_spec(), r.fp.slots_spec()),
    {
        let fp = ExtFullScreenExclusiveDeviceFn::load(resolver);
        FullScreenExclusiveDevice { handle: device, fp }
    }

    /// Acquires exclusive full-screen access for a swapchain; any
    /// non-success status comes back verbatim as the error.
    pub fn acquire_full_screen_exclusive_mode<D: Dispatch>(
        &self,
        dispatcher: &mut D,
        swapchain: vk::SwapchainKHR,
    ) -> (r: Result<(), vk::Status>)
        requires
            !self.fp.acquire_full_screen_exclusive_mode_ext.is_null_spec(),
        ensures
            r is Err ==> !(r->Err_0 is Success),
    {
        let mut args: Vec<u64> = Vec::new();
        args.push(swapchain.raw);
        let call = RawCall {
            addr: self.fp.acquire_full_screen_exclusive_mode_ext.addr,
            handle: self.handle.raw,
            args,
            capacity: None,
        };
        let reply = dispatcher.call(&call);
        ok_or_status(reply.status)
    }

    /// Releases exclusive full-screen access for a swapchain; any
    /// non-success status comes back verbatim as the error.
    pub fn release_full_screen_exclusive_mode<D: Dispatch>(
        &self,
        dispatcher: &mut D,
        swapchain: vk::SwapchainKHR,
    ) -> (r: Result<(), vk::Status>)
        requires
            !self.fp.release_full_screen_exclusive_mode_ext.is_null_spec(),
        ensures
            r is Err ==> !(r->Err_0 is Success),
    {
        let mut args: Vec<u64> = Vec::new();
        args.push(swapchain.raw);
        let call = RawCall {
            addr: self.fp.release_full_screen_exclusive_mode_ext.addr,
            handle: self.handle.raw,
            args,
            capacity: None,
        };
        let reply = dispatcher.call(&call);
        ok_or_status(reply.status)
    }

    /// Queries the present modes a surface supports within the device
    /// group, with extended surface parameters; success carries the modes
    /// bitmask.
    pub fn get_device_group_surface_present_modes2<D: Dispatch>(
        &self,
        dispatcher: &mut D,
        surface_info: &vk::PhysicalDeviceSurfaceInfo2KHR,
    ) -> (r: Result<vk::DeviceGroupPresentModeFlagsKHR, vk::Status>)
        requires
            !self.fp.get_device_group_surface_present_modes2_ext.is_null_spec(),
        ensures
            r is Err ==> !(r->Err_0 is Success),
    {
        let call = RawCall {
            addr: self.fp.get_device_group_surface_present_modes2_ext.addr,
            handle: self.handle.raw,
            args: surface_info.words(),
            capacity: None,
        };
        let reply = dispatcher.call(&call);
        value_or_status(reply.status, vk::DeviceGroupPresentModeFlagsKHR { raw: reply.word as u32 })
    }

    /// Read access to the underlying function table, for manual invocation
    /// past the typed methods.
    pub fn fp(&self) -> (r: &ExtFullScreenExclusiveDeviceFn)
        ensures
            *r == self.fp,
    {
        &self.fp
    }

    /// The device this table was resolved against.
    pub fn device(&self) -> (r: vk::Device)
        ensures
            r == self.handle,
    {
        self.handle
    }
}

/// The instance-scoped function table of the full-screen-exclusive
/// extension.
#[derive(Clone, Copy, PartialEq, Eq, Structural, Debug)]
pub struct ExtFullScreenExclusiveInstanceFn {
    pub get_physical_device_surface_present_modes2_ext: FnSlot,
}

impl ExtFullScreenExclusiveInstanceFn {
    /// The entry-point names of this table's slots, in slot order.
    pub open spec fn names_spec() -> Seq<Seq<char>> {
        seq!["vkGetPhysicalDeviceSurfacePresentModes2EXT"@]
    }

    /// This table's slots, in the order of `names_spec`.
    pub open spec fn slots_spec(self) -> Seq<FnSlot> {
        seq![self.get_physical_device_surface_present_modes2_ext]
    }

    /// Resolves every slot of this table against the given resolver; a
    /// null answer stays a null slot.
    pub fn load<F: Fn(&'static str) -> FnSlot>(resolver: F) -> (r: Self)
        requires
            resolver_total(resolver),
        ensures
            loaded_from(resolver, Self::names_spec(), r.slots_spec()),
    {
        let n0: &'static str = "vkGetPhysicalDeviceSurfacePresentModes2EXT";
        let r = ExtFullScreenExclusiveInstanceFn {
            get_physical_device_surface_present_modes2_ext: resolver(n0),
        };
        proof {
            assert(resolves(resolver, Self::names_spec()[0], r.slots_spec()[0]));
        }
        r
    }
}

/// Present modes decoded from one reply word each.
fn decode_present_modes(words: &Vec<u64>) -> (r: Vec<vk::PresentModeKHR>)
    ensures
        r@.len() == words@.len(),
        forall|i: int| 0 <= i < r@.len() ==> r@[i].raw == words@[i] as i32,
{
    let mut r: Vec<vk::PresentModeKHR> = Vec::new();
    let mut i: usize = 0;
    while i < words.len()
        invariant
            i <= words@.len(),
            r@.len() == i,
            forall|j: int| 0 <= j < i ==> r@[j].raw == words@[j] as i32,
        decreases words@.len() - i,
    {
        r.push(vk::PresentModeKHR { raw: words[i] as i32 });
        i = i + 1;
    }
    r
}

/// Instance-scoped wrapper: holds the instance-level table; its operation
/// takes the physical device it targets as an argument.
#[derive(Clone, Copy, PartialEq, Eq, Structural, Debug)]
pub struct FullScreenExclusiveInstance {
    pub fp: ExtFullScreenExclusiveInstanceFn,
}

impl FullScreenExclusiveInstance {
    /// Builds the table with an instance-scoped resolver.
    pub fn new<F: Fn(&'static str) -> FnSlot>(resolver: F) -> (r: Self)
        requires
            resolver_total(resolver),
        ensures
            loaded_from(
                resolver,
                ExtFullScreenExclusiveInstanceFn::names_spec(),
                r.fp.slots_spec(),
            ),
    {
        let fp = ExtFullScreenExclusiveInstanceFn::load(resolver);
        FullScreenExclusiveInstance { fp }
    }

    /// Retrieves the present modes a surface supports, with extended
    /// surface parameters, through the count-then-fill protocol.
    pub fn get_physical_device_surface_present_modes2<D: Dispatch>(
        &self,
        dispatcher: &mut D,
        physical_device: vk::PhysicalDevice,
        surface_info: &vk::PhysicalDeviceSurfaceInfo2KHR,
    ) -> (r: Result<Vec<vk::PresentModeKHR>, FetchError>)
        requires
            !self.fp.get_physical_device_surface_present_modes2_ext.is_null_spec(),
        ensures
            r is Ok ==> r->Ok_0@.len() <= MAX_FETCH_RECORDS,
            r is Err && r->Err_0 is Native ==> !(r->Err_0->Native_0 is Success),
    {
        match fetch_records(
            dispatcher,
            self.fp.get_physical_device_surface_present_modes2_ext,
            physical_device.raw,
            surface_info.words(),
            1,
        ) {
            Ok((words, _count)) => Ok(decode_present_modes(&words)),
            Err(e) => Err(e),
        }
    }

    /// Read access to the underlying function table, for manual invocation
    /// past the typed methods.
    pub fn fp(&self) -> (r: &ExtFullScreenExclusiveInstanceFn)
        ensures
            *r == self.fp,
    {
        &self.fp
    }
}

} // verus!
