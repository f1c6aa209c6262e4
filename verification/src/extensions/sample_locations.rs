//! Sample-locations extension: custom sample positions for multisampling.

use crate::dispatch::Dispatch;
use crate::dispatch::RawCall;
use crate::loader::loaded_from;
use crate::loader::resolver_total;
use crate::loader::resolves;
use crate::loader::FnSlot;
use crate::vk;
use vstd::prelude::*;

verus! {

/// The canonical registration name of this extension.
pub fn extension_name() -> (r: &'static str)
    ensures
        r@ == "VK_EXT_sample_locations"@,
{
    "VK_EXT_sample_locations"
}

/// The device-scoped function table of the sample-locations extension.
#[derive(Clone, Copy, PartialEq, Eq, Structural, Debug)]
pub struct ExtSampleLocationsDeviceFn {
    pub cmd_set_sample_locations_ext: FnSlot,
}

impl ExtSampleLocationsDeviceFn {
    /// The entry-point names of this table's slots, in slot order.
    pub open spec fn names_spec() -> Seq<Seq<char>> {
        seq!["vkCmdSetSampleLocationsEXT"@]
    }

    /// This table's slots, in the order of `names_spec`.
    pub open spec fn slots_spec(self) -> Seq<FnSlot> {
        seq![self.cmd_set_sample_locations_ext]
    }

    /// Resolves every slot of this table against the given resolver; a
    /// null answer stays a null slot.
    pub fn load<F: Fn(&'static str) -> FnSlot>(resolver: F) -> (r: Self)
        requires
            resolver_total(resolver),
        ensures
            loaded_from(resolver, Self::names_spec(), r.slots_spec()),
    {
        let n0: &'static str = "vkCmdSetSampleLocationsEXT";
        let r = ExtSampleLocationsDeviceFn { cmd_set_sample_locations_ext: resolver(n0) };
        proof {
            assert(resolves(resolver, Self::names_spec()[0], r.slots_spec()[0]));
        }
        r
    }
}

/// Device-scoped wrapper: holds the device-level table; its operation
/// takes the command buffer it targets as an argument.
#[derive(Clone, Copy, PartialEq, Eq, Structural, Debug)]
pub struct SampleLocationsDevice {
    pub fp: ExtSampleLocationsDeviceFn,
}

impl SampleLocationsDevice {
    /// Builds the table with a device-scoped resolver.
    pub fn new<F: Fn(&'static str) -> FnSlot>(resolver: F) -> (r: Self)
        requires
            resolver_total(resolver),
        ensures
            loaded_from(resolver, ExtSampleLocationsDeviceFn::names_spec(), r.fp.slots_spec()),
    {
        let fp = ExtSampleLocationsDeviceFn::load(resolver);
        SampleLocationsDevice { fp }
    }

    /// Sets the sample locations a command buffer renders with:
    /// fire-and-forget.
    pub fn cmd_set_sample_locations<D: Dispatch>(
        &self,
        dispatcher: &mut D,
        command_buffer: vk::CommandBuffer,
        sample_locations_info: &vk::SampleLocationsInfoEXT,
    )
        requires
            !self.fp.cmd_set_sample_locations_ext.is_null_spec(),
    {
        let call = RawCall {
            addr: self.fp.cmd_set_sample_locations_ext.addr,
            handle: command_buffer.raw,
            args: sample_locations_info.words(),
            capacity: None,
        };
        let _ = dispatcher.call(&call);
    }

    /// Read access to the underlying function table, for manual invocation
    /// past the typed methods.
    pub fn fp(&self) -> (r: &ExtSampleLocationsDeviceFn)
        ensures
            *r == self.fp,
    {
        &self.fp
    }
}

/// The instance-scoped function table of the sample-locations extension.
#[derive(Clone, Copy, PartialEq, Eq, Structural, Debug)]
pub struct ExtSampleLocationsInstanceFn {
    pub get_physical_device_multisample_properties_ext: FnSlot,
}

impl ExtSampleLocationsInstanceFn {
    /// The entry-point names of this table's slots, in slot order.
    pub open spec fn names_spec() -> Seq<Seq<char>> {
        seq!["vkGetPhysicalDeviceMultisamplePropertiesEXT"@]
    }

    /// This table's slots, in the order of `names_spec`.
    pub open spec fn slots_spec(self) -> Seq<FnSlot> {
        seq![self.get_physical_device_multisample_properties_ext]
    }

    /// Resolves every slot of this table against the given resolver; a
    /// null answer stays a null slot.
    pub fn load<F: Fn(&'static str) -> FnSlot>(resolver: F) -> (r: Self)
        requires
            resolver_total(resolver),
        ensures
            loaded_from(resolver, Self::names_spec(), r.slots_spec()),
    {
        let n0: &'static str = "vkGetPhysicalDeviceMultisamplePropertiesEXT";
        let r = ExtSampleLocationsInstanceFn {
            get_physical_device_multisample_properties_ext: resolver(n0),
        };
        proof {
            assert(resolves(resolver, Self::names_spec()[0], r.slots_spec()[0]));
        }
        r
    }
}

/// Instance-scoped wrapper: holds the instance-level table; its operation
/// takes the physical device it targets as an argument.
#[derive(Clone, Copy, PartialEq, Eq, Structural, Debug)]
pub struct SampleLocationsInstance {
    pub fp: ExtSampleLocationsInstanceFn,
}

impl SampleLocationsInstance {
    /// Builds the table with an instance-scoped resolver.
    pub fn new<F: Fn(&'static str) -> FnSlot>(resolver: F) -> (r: Self)
        requires
            resolver_total(resolver),
        ensures
            loaded_from(resolver, ExtSampleLocationsInstanceFn::names_spec(), r.fp.slots_spec()),
    {
        let fp = ExtSampleLocationsInstanceFn::load(resolver);
        SampleLocationsInstance { fp }
    }

    /// Queries the multisample properties of a physical device into the
    /// given out-structure, decoding them from the reply words; the native
    /// operation reports no status.
    pub fn get_physical_device_multisample_properties<D: Dispatch>(
        &self,
        dispatcher: &mut D,
        physical_device: vk::PhysicalDevice,
        samples: vk::SampleCountFlags,
        multisample_properties: &mut vk::MultisamplePropertiesEXT,
    )
        requires
            !self.fp.get_physical_device_multisample_properties_ext.is_null_spec(),
    {
        let mut args: Vec<u64> = Vec::new();
        args.push(samples.raw as u64);
        let call = RawCall {
            addr: self.fp.get_physical_device_multisample_properties_ext.addr,
            handle: physical_device.raw,
            args,
            capacity: None,
        };
        let reply = dispatcher.call(&call);
        *multisample_properties = vk::MultisamplePropertiesEXT::from_words(&reply.items);
    }

    /// Read access to the underlying function table, for manual invocation
    /// past the typed methods.
    pub fn fp(&self) -> (r: &ExtSampleLocationsInstanceFn)
        ensures
            *r == self.fp,
    {
        &self.fp
    }
}

} // verus!
