//! Table loading against stub resolvers: silent null slots, purity, and
//! the one-call-per-name contract.

use ash::dispatch::Dispatch;
use ash::dispatch::RawCall;
use ash::dispatch::RawReply;
use ash::extensions::swapchain::KhrSwapchainDeviceFn;
use ash::extensions::swapchain::SwapchainDevice;
use ash::loader::FnSlot;
use ash::vk::Device;
use ash::vk::Status;
use ash::vk::SwapchainKHR;
use std::cell::RefCell;
use ash::vk::Handle;

fn half_resolver(name: &'static str) -> FnSlot {
    // Resolves only the create/destroy/acquire half of the table.
    match name {
        "vkCreateSwapchainKHR" => FnSlot { addr: 101 },
        "vkDestroySwapchainKHR" => FnSlot { addr: 102 },
        "vkAcquireNextImageKHR" => FnSlot { addr: 104 },
        "vkQueuePresentKHR" => FnSlot { addr: 105 },
        _ => FnSlot { addr: 0 },
    }
}

struct CannedDispatch {
    status: Status,
    word: u64,
    seen: Vec<(u64, u64)>,
}

impl Dispatch for CannedDispatch {
    fn call(&mut self, call: &RawCall) -> RawReply {
        self.seen.push((call.addr, call.handle));
        RawReply {
            status: self.status,
            word: self.word,
            count: 0,
            items: Vec::new(),
            extra: Vec::new(),
        }
    }
}

#[test]
fn unresolved_names_leave_null_slots_and_loading_succeeds() {
    let table = KhrSwapchainDeviceFn::load(half_resolver);
    assert!(!table.create_swapchain_khr.is_null());
    assert!(!table.destroy_swapchain_khr.is_null());
    assert!(!table.acquire_next_image_khr.is_null());
    assert!(!table.queue_present_khr.is_null());
    assert!(table.get_swapchain_images_khr.is_null());
    assert!(table.get_device_group_present_capabilities_khr.is_null());
    assert!(table.get_device_group_surface_present_modes_khr.is_null());
    assert!(table.acquire_next_image2_khr.is_null());
}

#[test]
fn half_resolved_wrapper_invokes_resolved_operation() {
    let device = Device { raw: 77 };
    let wrapper = SwapchainDevice::new(half_resolver, device);
    assert!(wrapper.fp().get_swapchain_images_khr.is_null());
    let mut dispatch = CannedDispatch { status: Status::Success, word: 555, seen: Vec::new() };
    let create_info = sample_create_info();
    let got = wrapper.create_swapchain(&mut dispatch, &create_info, None);
    assert_eq!(got, Ok(SwapchainKHR { raw: 555 }));
    assert_eq!(dispatch.seen, vec![(101, 77)]);
}

fn sample_create_info() -> ash::vk::SwapchainCreateInfoKHR {
    ash::vk::SwapchainCreateInfoKHR {
        surface: ash::vk::SurfaceKHR { raw: 9 },
        min_image_count: 2,
        image_extent: ash::vk::Extent2D { width: 640, height: 480 },
        image_array_layers: 1,
        present_mode: ash::vk::PresentModeKHR { raw: 0 },
        clipped: true,
        old_swapchain: ash::vk::SwapchainKHR { raw: 0 },
    }
}

#[test]
fn independently_built_wrappers_are_interchangeable() {
    let device = Device { raw: 12 };
    let first = SwapchainDevice::new(half_resolver, device);
    let second = SwapchainDevice::new(half_resolver, device);
    assert_eq!(first.fp(), second.fp());
    assert_eq!(first.device(), second.device());
    let create_info = sample_create_info();
    let mut d1 = CannedDispatch { status: Status::Suboptimal, word: 3, seen: Vec::new() };
    let mut d2 = CannedDispatch { status: Status::Suboptimal, word: 3, seen: Vec::new() };
    let r1 = first.create_swapchain(&mut d1, &create_info, None);
    let r2 = second.create_swapchain(&mut d2, &create_info, None);
    assert_eq!(r1, r2);
    assert_eq!(d1.seen, d2.seen);
}

#[test]
fn loading_invokes_resolver_once_per_name() {
    let asked: RefCell<Vec<&'static str>> = RefCell::new(Vec::new());
    let table = KhrSwapchainDeviceFn::load(|name: &'static str| {
        asked.borrow_mut().push(name);
        FnSlot { addr: name.len() as u64 }
    });
    let mut names = asked.into_inner();
    assert_eq!(names.len(), 8);
    names.sort();
    let mut expected = vec![
        "vkCreateSwapchainKHR",
        "vkDestroySwapchainKHR",
        "vkGetSwapchainImagesKHR",
        "vkAcquireNextImageKHR",
        "vkQueuePresentKHR",
        "vkGetDeviceGroupPresentCapabilitiesKHR",
        "vkGetDeviceGroupSurfacePresentModesKHR",
        "vkAcquireNextImage2KHR",
    ];
    expected.sort();
    assert_eq!(names, expected);
    assert_eq!(table.create_swapchain_khr.addr, "vkCreateSwapchainKHR".len() as u64);
    assert_eq!(table.acquire_next_image2_khr.addr, "vkAcquireNextImage2KHR".len() as u64);
}

#[test]
fn null_slot_constructor_is_null() {
    assert!(FnSlot::null().is_null());
    assert!(!FnSlot { addr: 5 }.is_null());
}

#[test]
fn handles_round_trip_through_raw_values() {
    let device = Device::from_raw(91);
    assert_eq!(device.as_raw(), 91);
    assert_eq!(Device::object_type(), ash::vk::ObjectType::Device);
    let chain = SwapchainKHR::from_raw(17);
    assert_eq!(chain.as_raw(), 17);
    assert_eq!(SwapchainKHR::object_type(), ash::vk::ObjectType::SwapchainKhr);
    assert_eq!(ash::vk::Image::object_type(), ash::vk::ObjectType::Image);
}

#[test]
fn extension_names_are_canonical() {
    assert_eq!(ash::extensions::swapchain::extension_name(), "VK_KHR_swapchain");
    assert_eq!(ash::extensions::debug_utils::extension_name(), "VK_EXT_debug_utils");
    assert_eq!(
        ash::extensions::performance_query::extension_name(),
        "VK_KHR_performance_query"
    );
    assert_eq!(
        ash::extensions::full_screen_exclusive::extension_name(),
        "VK_EXT_full_screen_exclusive"
    );
    assert_eq!(
        ash::extensions::calibrated_timestamps::extension_name(),
        "VK_EXT_calibrated_timestamps"
    );
    assert_eq!(
        ash::extensions::sample_locations::extension_name(),
        "VK_EXT_sample_locations"
    );
}
