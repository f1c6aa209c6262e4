//! Debug-utils extension: object naming, command and queue region labels,
//! and diagnostic messengers.

use crate::adapter::ok_or_status;
use crate::adapter::value_or_status;
use crate::dispatch::Dispatch;
use crate::dispatch::RawCall;
use crate::loader::loaded_from;
use crate::loader::resolver_total;
use crate::loader::resolves;
use crate::loader::FnSlot;
use crate::vk;
use vstd::prelude::*;

verus! {

/// The canonical registration name of this extension.
pub fn extension_name() -> (r: &'static str)
    ensures
        r@ == "VK_EXT_debug_utils"@,
{
    "VK_EXT_debug_utils"
}

/// The device-scoped function table of the debug-utils extension.
#[derive(Clone, Copy, PartialEq, Eq, Structural, Debug)]
pub struct ExtDebugUtilsDeviceFn {
    pub set_debug_utils_object_name_ext: FnSlot,
    pub set_debug_utils_object_tag_ext: FnSlot,
    pub cmd_begin_debug_utils_label_ext: FnSlot,
    pub cmd_end_debug_utils_label_ext: FnSlot,
    pub cmd_insert_debug_utils_label_ext: FnSlot,
    pub queue_begin_debug_utils_label_ext: FnSlot,
    pub queue_end_debug_utils_label_ext: FnSlot,
    pub queue_insert_debug_utils_label_ext: FnSlot,
}

impl ExtDebugUtilsDeviceFn {
    /// The entry-point names of this table's slots, in slot order.
    pub open spec fn names_spec() -> Seq<Seq<char>> {
        seq![
            "vkSetDebugUtilsObjectNameEXT"@,
            "vkSetDebugUtilsObjectTagEXT"@,
            "vkCmdBeginDebugUtilsLabelEXT"@,
            "vkCmdEndDebugUtilsLabelEXT"@,
            "vkCmdInsertDebugUtilsLabelEXT"@,
            "vkQueueBeginDebugUtilsLabelEXT"@,
            "vkQueueEndDebugUtilsLabelEXT"@,
            "vkQueueInsertDebugUtilsLabelEXT"@,
        ]
    }

    /// This table's slots, in the order of `names_spec`.
    pub open spec fn slots_spec(self) -> Seq<FnSlot> {
        seq![
            self.set_debug_utils_object_name_ext,
            self.set_debug_utils_object_tag_ext,
            self.cmd_begin_debug_utils_label_ext,
            self.cmd_end_debug_utils_label_ext,
            self.cmd_insert_debug_utils_label_ext,
            self.queue_begin_debug_utils_label_ext,
            self.queue_end_debug_utils_label_ext,
            self.queue_insert_debug_utils_label_ext,
        ]
    }

    /// Resolves every slot of this table against the given resolver; a
    /// null answer stays a null slot.
    pub fn load<F: Fn(&'static str) -> FnSlot>(resolver: F) -> (r: Self)
        requires
            resolver_total(resolver),
        ensures
            loaded_from(resolver, Self::names_spec(), r.slots_spec()),
    {
        let n0: &'static str = "vkSetDebugUtilsObjectNameEXT";
        let n1: &'static str = "vkSetDebugUtilsObjectTagEXT";
        let n2: &'static str = "vkCmdBeginDebugUtilsLabelEXT";
        let n3: &'static str = "vkCmdEndDebugUtilsLabelEXT";
        let n4: &'static str = "vkCmdInsertDebugUtilsLabelEXT";
        let n5: &'static str = "vkQueueBeginDebugUtilsLabelEXT";
        let n6: &'static str = "vkQueueEndDebugUtilsLabelEXT";
        let n7: &'static str = "vkQueueInsertDebugUtilsLabelEXT";
        let r = ExtDebugUtilsDeviceFn {
            set_debug_utils_object_name_ext: resolver(n0),
            set_debug_utils_object_tag_ext: resolver(n1),
            cmd_begin_debug_utils_label_ext: resolver(n2),
            cmd_end_debug_utils_label_ext: resolver(n3),
            cmd_insert_debug_utils_label_ext: resolver(n4),
            queue_begin_debug_utils_label_ext: resolver(n5),
            queue_end_debug_utils_label_ext: resolver(n6),
            queue_insert_debug_utils_label_ext: resolver(n7),
        };
        proof {
            assert(resolves(resolver, Self::names_spec()[0], r.slots_spec()[0]));
            assert(resolves(resolver, Self::names_spec()[1], r.slots_spec()[1]));
            assert(resolves(resolver, Self::names_spec()[2], r.slots_spec()[2]));
            assert(resolves(resolver, Self::names_spec()[3], r.slots_spec()[3]));
            assert(resolves(resolver, Self::names_spec()[4], r.slots_spec()[4]));
            assert(resolves(resolver, Self::names_spec()[5], r.slots_spec()[5]));
            assert(resolves(resolver, Self::names_spec()[6], r.slots_spec()[6]));
            assert(resolves(resolver, Self::names_spec()[7], r.slots_spec()[7]));
        }
        r
    }
}

/// Device-scoped wrapper: the debug-utils device table bound to the device
/// it was resolved against.
#[derive(Clone, Copy, PartialEq, Eq, Structural, Debug)]
pub struct DebugUtilsDevice {
    pub handle: vk::Device,
    pub fp: ExtDebugUtilsDeviceFn,
}

impl DebugUtilsDevice {
    /// Builds the table with a device-scoped resolver and binds it to the
    /// device it was resolved against.
    pub fn new<F: Fn(&'static str) -> FnSlot>(resolver: F, device: vk::Device) -> (r: Self)
        requires
            resolver_total(resolver),
        ensures
            r.handle == device,
            loaded_from(resolver, ExtDebugUtilsDeviceFn::names_spec(), r.fp.slots_spec()),
    {
        let fp = ExtDebugUtilsDeviceFn::load(resolver);
        DebugUtilsDevice { handle: device, fp }
    }

    /// Names a native object for diagnostics; any non-success status comes
    /// back verbatim as the error.
    pub fn set_debug_utils_object_name<D: Dispatch>(
        &self,
        dispatcher: &mut D,
        name_info: &vk::DebugUtilsObjectNameInfoEXT,
    ) -> (r: Result<(), vk::Status>)
        requires
            !self.fp.set_debug_utils_object_name_ext.is_null_spec(),
        ensures
            r is Err ==> !(r->Err_0 is Success),
    {
        let call = RawCall {
            addr: self.fp.set_debug_utils_object_name_ext.addr,
            handle: self.handle.raw,
            args: name_info.words(),
            capacity: None,
        };
        let reply = dispatcher.call(&call);
        ok_or_status(reply.status)
    }

    /// Attaches a tag to a native object for diagnostics; any non-success
    /// status comes back verbatim as the error.
    pub fn set_debug_utils_object_tag<D: Dispatch>(
        &self,
        dispatcher: &mut D,
        tag_info: &vk::DebugUtilsObjectTagInfoEXT,
    ) -> (r: Result<(), vk::Status>)
        requires
            !self.fp.set_debug_utils_object_tag_ext.is_null_spec(),
        ensures
            r is Err ==> !(r->Err_0 is Success),
    {
        let call = RawCall {
            addr: self.fp.set_debug_utils_object_tag_ext.addr,
            handle: self.handle.raw,
            args: tag_info.words(),
            capacity: None,
        };
        let reply = dispatcher.call(&call);
        ok_or_status(reply.status)
    }

    /// Opens a label region on a command buffer: fire-and-forget.
    pub fn cmd_begin_debug_utils_label<D: Dispatch>(
        &self,
        dispatcher: &mut D,
        command_buffer: vk::CommandBuffer,
        label: &vk::DebugUtilsLabelEXT,
    )
        requires
            !self.fp.cmd_begin_debug_utils_label_ext.is_null_spec(),
    {
        let call = RawCall {
            addr: self.fp.cmd_begin_debug_utils_label_ext.addr,
            handle: command_buffer.raw,
            args: label.words(),
            capacity: None,
        };
        let _ = dispatcher.call(&call);
    }

    /// Closes the innermost label region on a command buffer:
    /// fire-and-forget.
    pub fn cmd_end_debug_utils_label<D: Dispatch>(
        &self,
        dispatcher: &mut D,
        command_buffer: vk::CommandBuffer,
    )
        requires
            !self.fp.cmd_end_debug_utils_label_ext.is_null_spec(),
    {
        let call = RawCall {
            addr: self.fp.cmd_end_debug_utils_label_ext.addr,
            handle: command_buffer.raw,
            args: Vec::new(),
            capacity: None,
        };
        let _ = dispatcher.call(&call);
    }

    /// Inserts a single label into a command buffer: fire-and-forget.
    pub fn cmd_insert_debug_utils_label<D: Dispatch>(
        &self,
        dispatcher: &mut D,
        command_buffer: vk::CommandBuffer,
        label: &vk::DebugUtilsLabelEXT,
    )
        requires
            !self.fp.cmd_insert_debug_utils_label_ext.is_null_spec(),
    {
        let call = RawCall {
            addr: self.fp.cmd_insert_debug_utils_label_ext.addr,
            handle: command_buffer.raw,
            args: label.words(),
            capacity: None,
        };
        let _ = dispatcher.call(&call);
    }

    /// Opens a label region on a queue: fire-and-forget.
    pub fn queue_begin_debug_utils_label<D: Dispatch>(
        &self,
        dispatcher: &mut D,
        queue: vk::Queue,
        label: &vk::DebugUtilsLabelEXT,
    )
        requires
            !self.fp.queue_begin_debug_utils_label_ext.is_null_spec(),
    {
        let call = RawCall {
            addr: self.fp.queue_begin_debug_utils_label_ext.addr,
            handle: queue.raw,
            args: label.words(),
            capacity: None,
        };
        let _ = dispatcher.call(&call);
    }

    /// Closes the innermost label region on a queue: fire-and-forget.
    pub fn queue_end_debug_utils_label<D: Dispatch>(
        &self,
        dispatcher: &mut D,
        queue: vk::Queue,
    )
        requires
            !self.fp.queue_end_debug_utils_label_ext.is_null_spec(),
    {
        let call = RawCall {
            addr: self.fp.queue_end_debug_utils_label_ext.addr,
            handle: queue.raw,
            args: Vec::new(),
            capacity: None,
        };
        let _ = dispatcher.call(&call);
    }

    /// Inserts a single label into a queue: fire-and-forget.
    pub fn queue_insert_debug_utils_label<D: Dispatch>(
        &self,
        dispatcher: &mut D,
        queue: vk::Queue,
        label: &vk::DebugUtilsLabelEXT,
    )
        requires
            !self.fp.queue_insert_debug_utils_label_ext.is_null_spec(),
    {
        let call = RawCall {
            addr: self.fp.queue_insert_debug_utils_label_ext.addr,
            handle: queue.raw,
            args: label.words(),
            capacity: None,
        };
        let _ = dispatcher.call(&call);
    }

    /// Read access to the underlying function table, for manual invocation
    /// past the typed methods.
    pub fn fp(&self) -> (r: &ExtDebugUtilsDeviceFn)
        ensures
            *r == self.fp,
    {
        &self.fp
    }

    /// The device this table was resolved against.
    pub fn device(&self) -> (r: vk::Device)
        ensures
            r == self.handle,
    {
        self.handle
    }
}

/// The instance-scoped function table of the debug-utils extension.
#[derive(Clone, Copy, PartialEq, Eq, Structural, Debug)]
pub struct ExtDebugUtilsInstanceFn {
    pub create_debug_utils_messenger_ext: FnSlot,
    pub destroy_debug_utils_messenger_ext: FnSlot,
    pub submit_debug_utils_message_ext: FnSlot,
}

impl ExtDebugUtilsInstanceFn {
    /// The entry-point names of this table's slots, in slot order.
    pub open spec fn names_spec() -> Seq<Seq<char>> {
        seq![
            "vkCreateDebugUtilsMessengerEXT"@,
            "vkDestroyDebugUtilsMessengerEXT"@,
            "vkSubmitDebugUtilsMessageEXT"@,
        ]
    }

    /// This table's slots, in the order of `names_spec`.
    pub open spec fn slots_spec(self) -> Seq<FnSlot> {
        seq![
            self.create_debug_utils_messenger_ext,
            self.destroy_debug_utils_messenger_ext,
            self.submit_debug_utils_message_ext,
        ]
    }

    /// Resolves every slot of this table against the given resolver; a
    /// null answer stays a null slot.
    pub fn load<F: Fn(&'static str) -> FnSlot>(resolver: F) -> (r: Self)
        requires
            resolver_total(resolver),
        ensures
            loaded_from(resolver, Self::names_spec(), r.slots_spec()),
    {
        let n0: &'static str = "vkCreateDebugUtilsMessengerEXT";
        let n1: &'static str = "vkDestroyDebugUtilsMessengerEXT";
        let n2: &'static str = "vkSubmitDebugUtilsMessageEXT";
        let r = ExtDebugUtilsInstanceFn {
            create_debug_utils_messenger_ext: resolver(n0),
            destroy_debug_utils_messenger_ext: resolver(n1),
            submit_debug_utils_message_ext: resolver(n2),
        };
        proof {
            assert(resolves(resolver, Self::names_spec()[0], r.slots_spec()[0]));
            assert(resolves(resolver, Self::names_spec()[1], r.slots_spec()[1]));
            assert(resolves(resolver, Self::names_spec()[2], r.slots_spec()[2]));
        }
        r
    }
}

/// Instance-scoped wrapper: the debug-utils instance table bound to the
/// instance it was resolved against.
#[derive(Clone, Copy, PartialEq, Eq, Structural, Debug)]
pub struct DebugUtilsInstance {
    pub handle: vk::Instance,
    pub fp: ExtDebugUtilsInstanceFn,
}

impl DebugUtilsInstance {
    /// Builds the table with an instance-scoped resolver and binds it to
    /// the instance it was resolved against.
    pub fn new<F: Fn(&'static str) -> FnSlot>(resolver: F, instance: vk::Instance) -> (r: Self)
        requires
            resolver_total(resolver),
        ensures
            r.handle == instance,
            loaded_from(resolver, ExtDebugUtilsInstanceFn::names_spec(), r.fp.slots_spec()),
    {
        let fp = ExtDebugUtilsInstanceFn::load(resolver);
        DebugUtilsInstance { handle: instance, fp }
    }

    /// Creates a diagnostic messenger; success carries the new handle, any
    /// other status comes back verbatim as the error.
    pub fn create_debug_utils_messenger<D: Dispatch>(
        &self,
        dispatcher: &mut D,
        create_info: &vk::DebugUtilsMessengerCreateInfoEXT,
        allocator: Option<&vk::AllocationCallbacks>,
    ) -> (r: Result<vk::DebugUtilsMessengerEXT, vk::Status>)
        requires
            !self.fp.create_debug_utils_messenger_ext.is_null_spec(),
        ensures
            r is Err ==> !(r->Err_0 is Success),
    {
        let mut args = create_info.words();
        args.push(vk::definitions::alloc_word(allocator));
        let call = RawCall {
            addr: self.fp.create_debug_utils_messenger_ext.addr,
            handle: self.handle.raw,
            args,
            capacity: None,
        };
        let reply = dispatcher.call(&call);
        value_or_status(reply.status, vk::DebugUtilsMessengerEXT { raw: reply.word })
    }

    /// Destroys a diagnostic messenger: fire-and-forget.
    pub fn destroy_debug_utils_messenger<D: Dispatch>(
        &self,
        dispatcher: &mut D,
        messenger: vk::DebugUtilsMessengerEXT,
        allocator: Option<&vk::AllocationCallbacks>,
    )
        requires
            !self.fp.destroy_debug_utils_messenger_ext.is_null_spec(),
    {
        let mut args: Vec<u64> = Vec::new();
        args.push(messenger.raw);
        args.push(vk::definitions::alloc_word(allocator));
        let call = RawCall {
            addr: self.fp.destroy_debug_utils_messenger_ext.addr,
            handle: self.handle.raw,
            args,
            capacity: None,
        };
        let _ = dispatcher.call(&call);
    }

    /// Injects a message into the diagnostic stream: fire-and-forget.
    pub fn submit_debug_utils_message<D: Dispatch>(
        &self,
        dispatcher: &mut D,
        message_severity: vk::DebugUtilsMessageSeverityFlagsEXT,
        message_types: vk::DebugUtilsMessageTypeFlagsEXT,
        callback_data: &vk::DebugUtilsMessengerCallbackDataEXT,
    )
        requires
            !self.fp.submit_debug_utils_message_ext.is_null_spec(),
    {
        let mut args: Vec<u64> = Vec::new();
        args.push(message_severity.raw as u64);
        args.push(message_types.raw as u64);
        let mut data = callback_data.words();
        args.append(&mut data);
        let call = RawCall {
            addr: self.fp.submit_debug_utils_message_ext.addr,
            handle: self.handle.raw,
            args,
            capacity: None,
        };
        let _ = dispatcher.call(&call);
    }

    /// Read access to the underlying function table, for manual invocation
    /// past the typed methods.
    pub fn fp(&self) -> (r: &ExtDebugUtilsInstanceFn)
        ensures
            *r == self.fp,
    {
        &self.fp
    }

    /// The instance this table was resolved against.
    pub fn instance(&self) -> (r: vk::Instance)
        ensures
            r == self.handle,
    {
        self.handle
    }
}

} // verus!
