//! Typed operations of the remaining extensions over stub backends.

use ash::dispatch::Dispatch;
use ash::dispatch::RawCall;
use ash::dispatch::RawReply;
use ash::extensions::calibrated_timestamps::CalibratedTimestampsDevice;
use ash::extensions::calibrated_timestamps::CalibratedTimestampsInstance;
use ash::extensions::debug_utils::DebugUtilsInstance;
use ash::extensions::full_screen_exclusive::FullScreenExclusiveDevice;
use ash::extensions::full_screen_exclusive::FullScreenExclusiveInstance;
use ash::extensions::performance_query::PerformanceQueryDevice;
use ash::extensions::performance_query::PerformanceQueryInstance;
use ash::extensions::sample_locations::SampleLocationsDevice;
use ash::extensions::sample_locations::SampleLocationsInstance;
use ash::fetch::FetchError;
use ash::loader::FnSlot;
use ash::vk::Device;
use ash::vk::Instance;
use ash::vk::PhysicalDevice;
use ash::vk::Status;

fn full_resolver(name: &'static str) -> FnSlot {
    FnSlot { addr: name.len() as u64 }
}

/// Answers every call with one scripted reply shape; records how often it
/// was called and what capacities it saw.
struct ScriptDispatch {
    status: Status,
    word: u64,
    count: u32,
    items: Vec<u64>,
    extra: Vec<u64>,
    calls: Vec<(u64, u64, Vec<u64>, Option<u32>)>,
}

impl ScriptDispatch {
    fn new(status: Status) -> ScriptDispatch {
        ScriptDispatch {
            status,
            word: 0,
            count: 0,
            items: Vec::new(),
            extra: Vec::new(),
            calls: Vec::new(),
        }
    }
}

impl Dispatch for ScriptDispatch {
    fn call(&mut self, call: &RawCall) -> RawReply {
        self.calls
            .push((call.addr, call.handle, call.args.clone(), call.capacity));
        RawReply {
            status: self.status,
            word: self.word,
            count: self.count,
            items: self.items.clone(),
            extra: self.extra.clone(),
        }
    }
}

#[test]
fn calibrated_timestamps_return_one_value_per_domain() {
    let w = CalibratedTimestampsDevice::new(full_resolver, Device { raw: 3 });
    let mut d = ScriptDispatch::new(Status::Success);
    d.items = vec![1000, 2000];
    d.extra = vec![5, 6];
    let info = vec![
        ash::vk::CalibratedTimestampInfoEXT { time_domain: ash::vk::TimeDomainEXT { raw: 0 } },
        ash::vk::CalibratedTimestampInfoEXT { time_domain: ash::vk::TimeDomainEXT { raw: 1 } },
    ];
    let got = w.get_calibrated_timestamps(&mut d, &info);
    assert_eq!(got, Ok((vec![1000, 2000], vec![5, 6])));
    let (_, _, args, _) = d.calls.remove(0);
    assert_eq!(args, vec![2, 0, 1]);
}

#[test]
fn calibrated_timestamps_failure_is_verbatim() {
    let w = CalibratedTimestampsDevice::new(full_resolver, Device { raw: 3 });
    let mut d = ScriptDispatch::new(Status::Failure(-9));
    let info = vec![ash::vk::CalibratedTimestampInfoEXT {
        time_domain: ash::vk::TimeDomainEXT { raw: 2 },
    }];
    assert_eq!(w.get_calibrated_timestamps(&mut d, &info), Err(Status::Failure(-9)));
}

#[test]
fn calibrateable_time_domains_fetch_and_decode() {
    let w = CalibratedTimestampsInstance::new(full_resolver);
    let mut d = ScriptDispatch::new(Status::Success);
    d.count = 2;
    d.items = vec![0, 3];
    let got = w.get_physical_device_calibrateable_time_domains(&mut d, PhysicalDevice { raw: 4 });
    let domains = got.unwrap();
    assert_eq!(domains.len(), 2);
    assert_eq!(domains[0].raw, 0);
    assert_eq!(domains[1].raw, 3);
    // Discovery then fill, against the physical device.
    assert_eq!(d.calls.len(), 2);
    assert_eq!(d.calls[0].3, None);
    assert_eq!(d.calls[1].3, Some(2));
    assert_eq!(d.calls[0].1, 4);
}

#[test]
fn profiling_lock_round_trip() {
    let w = PerformanceQueryDevice::new(full_resolver, Device { raw: 11 });
    let mut d = ScriptDispatch::new(Status::Success);
    let info = ash::vk::AcquireProfilingLockInfoKHR { flags: 0, timeout: 99 };
    assert_eq!(w.acquire_profiling_lock(&mut d, &info), Ok(()));
    w.release_profiling_lock(&mut d);
    assert_eq!(d.calls.len(), 2);
    assert_eq!(d.calls[0].2, vec![0, 99]);
    assert_eq!(d.calls[1].2, Vec::<u64>::new());
    let mut failing = ScriptDispatch::new(Status::Failure(-3));
    assert_eq!(w.acquire_profiling_lock(&mut failing, &info), Err(Status::Failure(-3)));
}

#[test]
fn counter_enumeration_len_then_fill() {
    let w = PerformanceQueryInstance::new(full_resolver);
    let mut d = ScriptDispatch::new(Status::Success);
    d.count = 2;
    let len = w
        .enumerate_physical_device_queue_family_performance_query_counters_len(
            &mut d,
            PhysicalDevice { raw: 5 },
            1,
        )
        .unwrap();
    assert_eq!(len, 2);
    let mut counters = vec![
        ash::vk::PerformanceCounterKHR { unit: 0, scope: 0, storage: 0 };
        len
    ];
    let mut descriptions = vec![
        ash::vk::PerformanceCounterDescriptionKHR { flags: 0 };
        len
    ];
    d.items = vec![1, 2, 3, 4, 5, 6];
    d.extra = vec![7, 8];
    let got = w.enumerate_physical_device_queue_family_performance_query_counters(
        &mut d,
        PhysicalDevice { raw: 5 },
        1,
        &mut counters,
        &mut descriptions,
    );
    assert_eq!(got, Ok(()));
    assert_eq!(counters.len(), 2);
    assert_eq!(counters[0], ash::vk::PerformanceCounterKHR { unit: 1, scope: 2, storage: 3 });
    assert_eq!(counters[1], ash::vk::PerformanceCounterKHR { unit: 4, scope: 5, storage: 6 });
    assert_eq!(descriptions[0].flags, 7);
    assert_eq!(descriptions[1].flags, 8);
    // The fill call was sized to the lists.
    assert_eq!(d.calls[1].3, Some(2));
}

#[test]
fn counter_enumeration_failure_leaves_lists_unchanged() {
    let w = PerformanceQueryInstance::new(full_resolver);
    let mut d = ScriptDispatch::new(Status::Failure(-5));
    let mut counters = vec![ash::vk::PerformanceCounterKHR { unit: 9, scope: 9, storage: 9 }];
    let mut descriptions = vec![ash::vk::PerformanceCounterDescriptionKHR { flags: 9 }];
    let got = w.enumerate_physical_device_queue_family_performance_query_counters(
        &mut d,
        PhysicalDevice { raw: 5 },
        0,
        &mut counters,
        &mut descriptions,
    );
    assert_eq!(got, Err(FetchError::Native(Status::Failure(-5))));
    assert_eq!(counters, vec![ash::vk::PerformanceCounterKHR { unit: 9, scope: 9, storage: 9 }]);
    assert_eq!(descriptions, vec![ash::vk::PerformanceCounterDescriptionKHR { flags: 9 }]);
}

#[test]
fn counter_enumeration_count_mismatch_is_a_protocol_violation() {
    // A successful fill reporting another count than the lists were sized
    // for surfaces as the protocol-violation error, not as success.
    let w = PerformanceQueryInstance::new(full_resolver);
    let mut d = ScriptDispatch::new(Status::Success);
    d.count = 3;
    d.items = vec![1, 2, 3, 4, 5, 6, 7, 8, 9];
    d.extra = vec![7, 8, 9];
    let mut counters = vec![
        ash::vk::PerformanceCounterKHR { unit: 9, scope: 9, storage: 9 };
        2
    ];
    let mut descriptions = vec![ash::vk::PerformanceCounterDescriptionKHR { flags: 9 }; 2];
    let got = w.enumerate_physical_device_queue_family_performance_query_counters(
        &mut d,
        PhysicalDevice { raw: 5 },
        1,
        &mut counters,
        &mut descriptions,
    );
    assert_eq!(got, Err(FetchError::Protocol));
    assert_eq!(counters.len(), 2);
    assert!(counters.iter().all(|c| c.unit == 9));
    assert!(descriptions.iter().all(|c| c.flags == 9));
}

#[test]
fn performance_query_passes_reads_the_reported_count() {
    let w = PerformanceQueryInstance::new(full_resolver);
    let mut d = ScriptDispatch::new(Status::Success);
    d.count = 6;
    let info = ash::vk::QueryPoolPerformanceCreateInfoKHR {
        queue_family_index: 2,
        counter_indices: vec![1, 4],
    };
    let passes = w.get_physical_device_queue_family_performance_query_passes(
        &mut d,
        PhysicalDevice { raw: 5 },
        &info,
    );
    assert_eq!(passes, 6);
    assert_eq!(d.calls[0].2, vec![2, 2, 1, 4]);
}

#[test]
fn full_screen_exclusive_mode_round_trip() {
    let w = FullScreenExclusiveDevice::new(full_resolver, Device { raw: 21 });
    let mut d = ScriptDispatch::new(Status::Success);
    let chain = ash::vk::SwapchainKHR { raw: 2 };
    assert_eq!(w.acquire_full_screen_exclusive_mode(&mut d, chain), Ok(()));
    assert_eq!(w.release_full_screen_exclusive_mode(&mut d, chain), Ok(()));
    let mut failing = ScriptDispatch::new(Status::Failure(-1));
    assert_eq!(
        w.acquire_full_screen_exclusive_mode(&mut failing, chain),
        Err(Status::Failure(-1))
    );
}

#[test]
fn surface_present_modes2_fetch_and_decode() {
    let w = FullScreenExclusiveInstance::new(full_resolver);
    let mut d = ScriptDispatch::new(Status::Success);
    d.count = 2;
    d.items = vec![0, 2];
    let info = ash::vk::PhysicalDeviceSurfaceInfo2KHR {
        surface: ash::vk::SurfaceKHR { raw: 8 },
    };
    let got = w.get_physical_device_surface_present_modes2(
        &mut d,
        PhysicalDevice { raw: 6 },
        &info,
    );
    let modes = got.unwrap();
    assert_eq!(modes.len(), 2);
    assert_eq!(modes[0].raw, 0);
    assert_eq!(modes[1].raw, 2);
    assert_eq!(d.calls[0].2, vec![8]);
}

#[test]
fn device_group_modes2_carries_the_reply_word() {
    let w = FullScreenExclusiveDevice::new(full_resolver, Device { raw: 21 });
    let mut d = ScriptDispatch::new(Status::Success);
    d.word = 5;
    let info = ash::vk::PhysicalDeviceSurfaceInfo2KHR {
        surface: ash::vk::SurfaceKHR { raw: 8 },
    };
    let got = w.get_device_group_surface_present_modes2(&mut d, &info);
    assert_eq!(got, Ok(ash::vk::DeviceGroupPresentModeFlagsKHR { raw: 5 }));
}

#[test]
fn sample_locations_marshal_two_words_per_location() {
    let w = SampleLocationsDevice::new(full_resolver);
    let mut d = ScriptDispatch::new(Status::Success);
    let info = ash::vk::SampleLocationsInfoEXT {
        sample_locations_per_pixel: ash::vk::SampleCountFlags { raw: 4 },
        sample_location_grid_size: ash::vk::Extent2D { width: 2, height: 2 },
        sample_locations: vec![
            ash::vk::SampleLocationEXT { x_fixed: 10, y_fixed: 20 },
            ash::vk::SampleLocationEXT { x_fixed: 30, y_fixed: 40 },
        ],
    };
    w.cmd_set_sample_locations(&mut d, ash::vk::CommandBuffer { raw: 9 }, &info);
    assert_eq!(d.calls[0].1, 9);
    assert_eq!(d.calls[0].2, vec![4, 2, 2, 2, 10, 20, 30, 40]);
}

#[test]
fn multisample_properties_decode_from_the_reply() {
    let w = SampleLocationsInstance::new(full_resolver);
    let mut d = ScriptDispatch::new(Status::Success);
    d.items = vec![16, 32];
    let mut props = ash::vk::MultisamplePropertiesEXT {
        max_sample_location_grid_size: ash::vk::Extent2D { width: 0, height: 0 },
    };
    w.get_physical_device_multisample_properties(
        &mut d,
        PhysicalDevice { raw: 2 },
        ash::vk::SampleCountFlags { raw: 1 },
        &mut props,
    );
    assert_eq!(props.max_sample_location_grid_size.width, 16);
    assert_eq!(props.max_sample_location_grid_size.height, 32);
}

#[test]
fn messenger_create_destroy_and_submit() {
    let w = DebugUtilsInstance::new(full_resolver, Instance { raw: 90 });
    assert_eq!(w.instance(), Instance { raw: 90 });
    let mut d = ScriptDispatch::new(Status::Success);
    d.word = 400;
    let create = ash::vk::DebugUtilsMessengerCreateInfoEXT {
        message_severity: ash::vk::DebugUtilsMessageSeverityFlagsEXT { raw: 0x1000 },
        message_type: ash::vk::DebugUtilsMessageTypeFlagsEXT { raw: 0x2 },
        pfn_user_callback: 123,
        user_data: 456,
    };
    let messenger = w.create_debug_utils_messenger(&mut d, &create, None).unwrap();
    assert_eq!(messenger, ash::vk::DebugUtilsMessengerEXT { raw: 400 });
    assert_eq!(d.calls[0].2, vec![0x1000, 0x2, 123, 456, 0]);
    w.destroy_debug_utils_messenger(&mut d, messenger, None);
    assert_eq!(d.calls[1].2, vec![400, 0]);
    let data = ash::vk::DebugUtilsMessengerCallbackDataEXT {
        message_id_number: -1,
        message: vec![104, 105],
    };
    w.submit_debug_utils_message(
        &mut d,
        ash::vk::DebugUtilsMessageSeverityFlagsEXT { raw: 1 },
        ash::vk::DebugUtilsMessageTypeFlagsEXT { raw: 2 },
        &data,
    );
    assert_eq!(d.calls[2].2, vec![1, 2, (-1i32) as u64, 2, 104, 105]);
}

#[test]
fn device_scoped_getters_report_their_binding() {
    let device = Device { raw: 33 };
    let w = CalibratedTimestampsDevice::new(full_resolver, device);
    assert_eq!(w.device(), device);
    assert_eq!(
        w.fp().get_calibrated_timestamps_ext.addr,
        "vkGetCalibratedTimestampsEXT".len() as u64
    );
    let p = PerformanceQueryDevice::new(full_resolver, device);
    assert_eq!(p.device(), device);
    let f = FullScreenExclusiveDevice::new(full_resolver, device);
    assert_eq!(f.device(), device);
}
