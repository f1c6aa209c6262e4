//! Exact marshaling of typed arguments into raw call words, observed at
//! the dispatch boundary.

use ash::dispatch::Dispatch;
use ash::dispatch::RawCall;
use ash::dispatch::RawReply;
use ash::extensions::debug_utils::DebugUtilsDevice;
use ash::extensions::swapchain::SwapchainDevice;
use ash::loader::FnSlot;
use ash::vk::AllocationCallbacks;
use ash::vk::Device;
use ash::vk::ObjectType;
use ash::vk::Semaphore;
use ash::vk::Status;
use ash::vk::SwapchainKHR;

fn full_resolver(name: &'static str) -> FnSlot {
    FnSlot { addr: name.len() as u64 }
}

/// Records every raw call and answers with a canned success.
struct RecordingDispatch {
    calls: Vec<(u64, u64, Vec<u64>, Option<u32>)>,
}

impl Dispatch for RecordingDispatch {
    fn call(&mut self, call: &RawCall) -> RawReply {
        self.calls
            .push((call.addr, call.handle, call.args.clone(), call.capacity));
        RawReply {
            status: Status::Success,
            word: 0,
            count: 0,
            items: Vec::new(),
            extra: Vec::new(),
        }
    }
}

#[test]
fn swapchain_create_info_marshals_field_by_field() {
    let w = SwapchainDevice::new(full_resolver, Device { raw: 40 });
    let info = ash::vk::SwapchainCreateInfoKHR {
        surface: ash::vk::SurfaceKHR { raw: 9 },
        min_image_count: 2,
        image_extent: ash::vk::Extent2D { width: 640, height: 480 },
        image_array_layers: 1,
        present_mode: ash::vk::PresentModeKHR { raw: -3 },
        clipped: true,
        old_swapchain: SwapchainKHR { raw: 17 },
    };
    let callbacks = AllocationCallbacks { raw: 88 };
    let mut d = RecordingDispatch { calls: Vec::new() };
    let _ = w.create_swapchain(&mut d, &info, Some(&callbacks));
    assert_eq!(d.calls.len(), 1);
    let (addr, handle, args, capacity) = d.calls.remove(0);
    assert_eq!(addr, "vkCreateSwapchainKHR".len() as u64);
    assert_eq!(handle, 40);
    assert_eq!(capacity, None);
    assert_eq!(
        args,
        vec![9, 2, 640, 480, 1, (-3i32) as u64, 1, 17, 88]
    );
}

#[test]
fn absent_allocation_callbacks_marshal_as_zero() {
    let w = SwapchainDevice::new(full_resolver, Device { raw: 40 });
    let mut d = RecordingDispatch { calls: Vec::new() };
    w.destroy_swapchain(&mut d, SwapchainKHR { raw: 6 }, None);
    let (_, _, args, _) = d.calls.remove(0);
    assert_eq!(args, vec![6, 0]);
}

#[test]
fn present_info_marshals_each_list_with_its_length() {
    let w = SwapchainDevice::new(full_resolver, Device { raw: 40 });
    let info = ash::vk::PresentInfoKHR {
        wait_semaphores: vec![Semaphore { raw: 21 }, Semaphore { raw: 22 }],
        swapchains: vec![SwapchainKHR { raw: 31 }],
        image_indices: vec![4],
    };
    let mut d = RecordingDispatch { calls: Vec::new() };
    let _ = w.queue_present(&mut d, ash::vk::Queue { raw: 50 }, &info);
    let (_, handle, args, _) = d.calls.remove(0);
    // The present call targets the queue it was handed, not the device.
    assert_eq!(handle, 50);
    assert_eq!(args, vec![2, 21, 22, 1, 31, 1, 4]);
}

#[test]
fn object_name_info_marshals_kind_code_and_handle() {
    let w = DebugUtilsDevice::new(full_resolver, Device { raw: 60 });
    let info = ash::vk::DebugUtilsObjectNameInfoEXT {
        object_type: ObjectType::Image,
        object_handle: 777,
    };
    let mut d = RecordingDispatch { calls: Vec::new() };
    let got = w.set_debug_utils_object_name(&mut d, &info);
    assert_eq!(got, Ok(()));
    let (addr, handle, args, _) = d.calls.remove(0);
    assert_eq!(addr, "vkSetDebugUtilsObjectNameEXT".len() as u64);
    assert_eq!(handle, 60);
    assert_eq!(args, vec![10, 777]);
}

#[test]
fn label_marshals_length_then_bytes() {
    let w = DebugUtilsDevice::new(full_resolver, Device { raw: 60 });
    let label = ash::vk::DebugUtilsLabelEXT { label_name: vec![97, 98, 99] };
    let mut d = RecordingDispatch { calls: Vec::new() };
    w.cmd_begin_debug_utils_label(&mut d, ash::vk::CommandBuffer { raw: 70 }, &label);
    let (_, handle, args, _) = d.calls.remove(0);
    assert_eq!(handle, 70);
    assert_eq!(args, vec![3, 97, 98, 99]);
}

#[test]
fn acquire_info_marshals_field_by_field() {
    let w = SwapchainDevice::new(full_resolver, Device { raw: 40 });
    let info = ash::vk::AcquireNextImageInfoKHR {
        swapchain: SwapchainKHR { raw: 12 },
        timeout: 500,
        semaphore: Semaphore { raw: 13 },
        fence: ash::vk::Fence { raw: 14 },
        device_mask: 3,
    };
    let mut d = RecordingDispatch { calls: Vec::new() };
    let _ = w.acquire_next_image2(&mut d, &info);
    let (_, _, args, _) = d.calls.remove(0);
    assert_eq!(args, vec![12, 500, 13, 14, 3]);
}
