//! The status interpretation policy, exercised through typed methods over
//! a stub backend: success, hard failure verbatim, and degraded success.

use ash::dispatch::Dispatch;
use ash::dispatch::RawCall;
use ash::dispatch::RawReply;
use ash::extensions::swapchain::SwapchainDevice;
use ash::loader::FnSlot;
use ash::vk::Device;
use ash::vk::Fence;
use ash::vk::Queue;
use ash::vk::Semaphore;
use ash::vk::Status;
use ash::vk::SwapchainKHR;

fn full_resolver(name: &'static str) -> FnSlot {
    FnSlot { addr: name.len() as u64 }
}

struct CannedDispatch {
    status: Status,
    word: u64,
}

impl Dispatch for CannedDispatch {
    fn call(&mut self, _call: &RawCall) -> RawReply {
        RawReply {
            status: self.status,
            word: self.word,
            count: 0,
            items: Vec::new(),
            extra: Vec::new(),
        }
    }
}

fn wrapper() -> SwapchainDevice {
    SwapchainDevice::new(full_resolver, Device { raw: 1 })
}

#[test]
fn success_status_yields_successful_outcome() {
    let w = wrapper();
    let mut d = CannedDispatch { status: Status::Success, word: 42 };
    let got = w.acquire_next_image(
        &mut d,
        SwapchainKHR { raw: 2 },
        1000,
        Semaphore { raw: 3 },
        Fence { raw: 0 },
    );
    assert_eq!(got, Ok((42, false)));
}

#[test]
fn hard_failure_wraps_exactly_that_status() {
    let w = wrapper();
    let mut d = CannedDispatch { status: Status::Failure(-4), word: 42 };
    let got = w.acquire_next_image(
        &mut d,
        SwapchainKHR { raw: 2 },
        1000,
        Semaphore { raw: 3 },
        Fence { raw: 0 },
    );
    assert_eq!(got, Err(Status::Failure(-4)));
}

#[test]
fn degraded_status_is_success_with_flag_set() {
    let w = wrapper();
    let mut d = CannedDispatch { status: Status::Suboptimal, word: 7 };
    let got = w.acquire_next_image(
        &mut d,
        SwapchainKHR { raw: 2 },
        0,
        Semaphore { raw: 0 },
        Fence { raw: 9 },
    );
    assert_eq!(got, Ok((7, true)));
}

#[test]
fn queue_present_maps_the_status_family() {
    let w = wrapper();
    let info = ash::vk::PresentInfoKHR {
        wait_semaphores: vec![Semaphore { raw: 5 }],
        swapchains: vec![SwapchainKHR { raw: 6 }],
        image_indices: vec![0],
    };
    let mut ok = CannedDispatch { status: Status::Success, word: 0 };
    assert_eq!(w.queue_present(&mut ok, Queue { raw: 8 }, &info), Ok(false));
    let mut degraded = CannedDispatch { status: Status::Suboptimal, word: 0 };
    assert_eq!(w.queue_present(&mut degraded, Queue { raw: 8 }, &info), Ok(true));
    let mut failed = CannedDispatch { status: Status::Failure(-1), word: 0 };
    assert_eq!(
        w.queue_present(&mut failed, Queue { raw: 8 }, &info),
        Err(Status::Failure(-1))
    );
}

#[test]
fn incomplete_is_not_a_present_family_success() {
    // Only the two distinguished statuses are successful there; the
    // more-data status belongs to the retrieval protocol and surfaces as a
    // plain error from a present-family operation.
    let w = wrapper();
    let mut d = CannedDispatch { status: Status::Incomplete, word: 1 };
    let got = w.acquire_next_image(
        &mut d,
        SwapchainKHR { raw: 2 },
        0,
        Semaphore { raw: 0 },
        Fence { raw: 0 },
    );
    assert_eq!(got, Err(Status::Incomplete));
}

#[test]
fn unit_operations_map_success_and_failure_verbatim() {
    let w = wrapper();
    let mut caps = ash::vk::DeviceGroupPresentCapabilitiesKHR {
        present_mask: Vec::new(),
        modes: ash::vk::DeviceGroupPresentModeFlagsKHR { raw: 0 },
    };
    let mut failed = CannedDispatch { status: Status::Failure(-2), word: 0 };
    let got = w.get_device_group_present_capabilities(&mut failed, &mut caps);
    assert_eq!(got, Err(Status::Failure(-2)));
    // On an error the out-structure is untouched.
    assert_eq!(caps.present_mask, Vec::<u32>::new());
    assert_eq!(caps.modes, ash::vk::DeviceGroupPresentModeFlagsKHR { raw: 0 });
}

#[test]
fn create_swapchain_success_carries_the_reply_handle() {
    let w = wrapper();
    let info = ash::vk::SwapchainCreateInfoKHR {
        surface: ash::vk::SurfaceKHR { raw: 4 },
        min_image_count: 3,
        image_extent: ash::vk::Extent2D { width: 1, height: 1 },
        image_array_layers: 1,
        present_mode: ash::vk::PresentModeKHR { raw: 2 },
        clipped: false,
        old_swapchain: SwapchainKHR { raw: 0 },
    };
    let mut d = CannedDispatch { status: Status::Success, word: 900 };
    assert_eq!(w.create_swapchain(&mut d, &info, None), Ok(SwapchainKHR { raw: 900 }));
}
