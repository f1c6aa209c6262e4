//! Performance-query extension: the profiling lock and counter
//! enumeration.

use crate::adapter::ok_or_status;
use crate::adapter::value_or_status;
use crate::dispatch::Dispatch;
use crate::dispatch::RawCall;
use crate::fetch::check_filled_count;
use crate::fetch::FetchError;
use crate::fetch::MAX_FETCH_RECORDS;
use crate::loader::loaded_from;
use crate::loader::resolver_total;
use crate::loader::resolves;
use crate::loader::FnSlot;
use crate::vk;
use crate::vk::definitions::read_word;
use crate::vk::definitions::word_at;
use vstd::prelude::*;

verus! {

/// The canonical registration name of this extension.
pub fn extension_name() -> (r: &'static str)
    ensures
        r@ == "VK_KHR_performance_query"@,
{
    "VK_KHR_performance_query"
}

/// The device-scoped function table of the performance-query extension.
#[derive(Clone, Copy, PartialEq, Eq, Structural, Debug)]
pub struct KhrPerformanceQueryDeviceFn {
    pub acquire_profiling_lock_khr: FnSlot,
    pub release_profiling_lock_khr: FnSlot,
}

impl KhrPerformanceQueryDeviceFn {
    /// The entry-point names of this table's slots, in slot order.
    pub open spec fn names_spec() -> Seq<Seq<char>> {
        seq!["vkAcquireProfilingLockKHR"@, "vkReleaseProfilingLockKHR"@]
    }

    /// This table's slots, in the order of `names_spec`.
    pub open spec fn slots_spec(self) -> Seq<FnSlot> {
        seq![self.acquire_profiling_lock_khr, self.release_profiling_lock_khr]
    }

    /// Resolves every slot of this table against the given resolver; a
    /// null answer stays a null slot.
    pub fn load<F: Fn(&'static str) -> FnSlot>(resolver: F) -> (r: Self)
        requires
            resolver_total(resolver),
        ensures
            loaded_from(resolver, Self::names_spec(), r.slots_spec()),
    {
        let n0: &'static str = "vkAcquireProfilingLockKHR";
        let n1: &'static str = "vkReleaseProfilingLockKHR";
        let r = KhrPerformanceQueryDeviceFn {
            acquire_profiling_lock_khr: resolver(n0),
            release_profiling_lock_khr: resolver(n1),
        };
        proof {
            assert(resolves(resolver, Self::names_spec()[0], r.slots_spec()[0]));
            assert(resolves(resolver, Self::names_spec()[1], r.slots_spec()[1]));
        }
        r
    }
}

/// Device-scoped wrapper: the performance-query device table bound to the
/// device it was resolved against.
#[derive(Clone, Copy, PartialEq, Eq, Structural, Debug)]
pub struct PerformanceQueryDevice {
    pub handle: vk::Device,
    pub fp: KhrPerformanceQueryDeviceFn,
}

impl PerformanceQueryDevice {
    /// Builds the table with a device-scoped resolver and binds it to the
    /// device it was resolved against.
    pub fn new<F: Fn(&'static str) -> FnSlot>(resolver: F, device: vk::Device) -> (r: Self)
        requires
            resolver_total(resolver),
        ensures
            r.handle == device,
            loaded_from(resolver, KhrPerformanceQueryDeviceFn::names_spec(), r.fp.slots_spec()),
    {
        let fp = KhrPerformanceQueryDeviceFn::load(resolver);
        PerformanceQueryDevice { handle: device, fp }
    }

    /// Acquires the profiling lock; any non-success status comes back
    /// verbatim as the error.
    pub fn acquire_profiling_lock<D: Dispatch>(
        &self,
        dispatcher: &mut D,
        info: &vk::AcquireProfilingLockInfoKHR,
    ) -> (r: Result<(), vk::Status>)
        requires
            !self.fp.acquire_profiling_lock_khr.is_null_spec(),
        ensures
            r is Err ==> !(r->Err_0 is Success),
    {
        let call = RawCall {
            addr: self.fp.acquire_profiling_lock_khr.addr,
            handle: self.handle.raw,
            args: info.words(),
            capacity: None,
        };
        let reply = dispatcher.call(&call);
        ok_or_status(reply.status)
    }

    /// Releases the profiling lock: fire-and-forget.
    pub fn release_profiling_lock<D: Dispatch>(&self, dispatcher: &mut D)
        requires
            !self.fp.release_profiling_lock_khr.is_null_spec(),
    {
        let call = RawCall {
            addr: self.fp.release_profiling_lock_khr.addr,
            handle: self.handle.raw,
            args: Vec::new(),
            capacity: None,
        };
        let _ = dispatcher.call(&call);
    }

    /// Read access to the underlying function table, for manual invocation
    /// past the typed methods.
    pub fn fp(&self) -> (r: &KhrPerformanceQueryDeviceFn)
        ensures
            *r == self.fp,
    {
        &self.fp
    }

    /// The device this table was resolved against.
    pub fn device(&self) -> (r: vk::Device)
        ensures
            r == self.handle,
    {
        self.handle
    }
}

/// The instance-scoped function table of the performance-query extension.
#[derive(Clone, Copy, PartialEq, Eq, Structural, Debug)]
pub struct KhrPerformanceQueryInstanceFn {
    pub enumerate_physical_device_queue_family_performance_query_counters_khr: FnSlot,
    pub get_physical_device_queue_family_performance_query_passes_khr: FnSlot,
}

impl KhrPerformanceQueryInstanceFn {
    /// The entry-point names of this table's slots, in slot order.
    pub open spec fn names_spec() -> Seq<Seq<char>> {
        seq![
            "vkEnumeratePhysicalDeviceQueueFamilyPerformanceQueryCountersKHR"@,
            "vkGetPhysicalDeviceQueueFamilyPerformanceQueryPassesKHR"@,
        ]
    }

    /// This table's slots, in the order of `names_spec`.
    pub open spec fn slots_spec(self) -> Seq<FnSlot> {
        seq![
            self.enumerate_physical_device_queue_family_performance_query_counters_khr,
            self.get_physical_device_queue_family_performance_query_passes_khr,
        ]
    }

    /// Resolves every slot of this table against the given resolver; a
    /// null answer stays a null slot.
    pub fn load<F: Fn(&'static str) -> FnSlot>(resolver: F) -> (r: Self)
        requires
            resolver_total(resolver),
        ensures
            loaded_from(resolver, Self::names_spec(), r.slots_spec()),
    {
        let n0: &'static str = "vkEnumeratePhysicalDeviceQueueFamilyPerformanceQueryCountersKHR";
        let n1: &'static str = "vkGetPhysicalDeviceQueueFamilyPerformanceQueryPassesKHR";
        let r = KhrPerformanceQueryInstanceFn {
            enumerate_physical_device_queue_family_performance_query_counters_khr: resolver(n0),
            get_physical_device_queue_family_performance_query_passes_khr: resolver(n1),
        };
        proof {
            assert(resolves(resolver, Self::names_spec()[0], r.slots_spec()[0]));
            assert(resolves(resolver, Self::names_spec()[1], r.slots_spec()[1]));
        }
        r
    }
}

/// Counter records decoded from three reply words each, read as the
/// zero-initialized buffer the operation allocated: a word the reply did
/// not carry reads as zero.
fn decode_counters(items: &Vec<u64>, len: usize) -> (r: Vec<vk::PerformanceCounterKHR>)
    requires
        len <= MAX_FETCH_RECORDS,
    ensures
        r@.len() == len,
        forall|i: int|
            0 <= i < len ==> r@[i] == vk::PerformanceCounterKHR::from_words_spec(
                word_at(items@, 3 * i),
                word_at(items@, 3 * i + 1),
                word_at(items@, 3 * i + 2),
            ),
{
    let mut r: Vec<vk::PerformanceCounterKHR> = Vec::new();
    let mut i: usize = 0;
    let mut base: usize = 0;
    while i < len
        invariant
            i <= len,
            base == 3 * i,
            len <= MAX_FETCH_RECORDS,
            r@.len() == i,
            forall|j: int|
                0 <= j < i ==> r@[j] == vk::PerformanceCounterKHR::from_words_spec(
                    word_at(items@, 3 * j),
                    word_at(items@, 3 * j + 1),
                    word_at(items@, 3 * j + 2),
                ),
        decreases len - i,
    {
        r.push(vk::PerformanceCounterKHR::from_words(
            read_word(items, base),
            read_word(items, base + 1),
            read_word(items, base + 2),
        ));
        i = i + 1;
        base = base + 3;
    }
    r
}

/// Description records decoded from one reply word each, read as the
/// zero-initialized buffer the operation allocated.
fn decode_descriptions(extra: &Vec<u64>, len: usize) -> (r: Vec<
    vk::PerformanceCounterDescriptionKHR,
>)
    ensures
        r@.len() == len,
        forall|i: int|
            0 <= i < len ==> r@[i] == vk::PerformanceCounterDescriptionKHR::from_words_spec(
                word_at(extra@, i),
            ),
{
    let mut r: Vec<vk::PerformanceCounterDescriptionKHR> = Vec::new();
    let mut i: usize = 0;
    while i < len
        invariant
            i <= len,
            r@.len() == i,
            forall|j: int|
                0 <= j < i ==> r@[j] == vk::PerformanceCounterDescriptionKHR::from_words_spec(
                    word_at(extra@, j),
                ),
        decreases len - i,
    {
        r.push(vk::PerformanceCounterDescriptionKHR::from_words(read_word(extra, i)));
        i = i + 1;
    }
    r
}

/// Instance-scoped wrapper: holds the instance-level table; its operations
/// take the physical device they target as an argument.
#[derive(Clone, Copy, PartialEq, Eq, Structural, Debug)]
pub struct PerformanceQueryInstance {
    pub fp: KhrPerformanceQueryInstanceFn,
}

impl PerformanceQueryInstance {
    /// Builds the table with an instance-scoped resolver.
    pub fn new<F: Fn(&'static str) -> FnSlot>(resolver: F) -> (r: Self)
        requires
            resolver_total(resolver),
        ensures
            loaded_from(resolver, KhrPerformanceQueryInstanceFn::names_spec(), r.fp.slots_spec()),
    {
        let fp = KhrPerformanceQueryInstanceFn::load(resolver);
        PerformanceQueryInstance { fp }
    }

    /// Discovers how many performance counters a queue family exposes:
    /// the count to size the two output lists of
    /// `enumerate_physical_device_queue_family_performance_query_counters`
    /// with. Success carries the reported count.
    pub fn enumerate_physical_device_queue_family_performance_query_counters_len<D: Dispatch>(
        &self,
        dispatcher: &mut D,
        physical_device: vk::PhysicalDevice,
        queue_family_index: u32,
    ) -> (r: Result<usize, vk::Status>)
        requires
            !self.fp.enumerate_physical_device_queue_family_performance_query_counters_khr
                .is_null_spec(),
        ensures
            r is Err ==> !(r->Err_0 is Success),
    {
        let mut args: Vec<u64> = Vec::new();
        args.push(queue_family_index as u64);
        let call = RawCall {
            addr: self.fp.enumerate_physical_device_queue_family_performance_query_counters_khr
                .addr,
            handle: physical_device.raw,
            args,
            capacity: None,
        };
        let reply = dispatcher.call(&call);
        value_or_status(reply.status, reply.count as usize)
    }

    /// Fills the caller-sized counter and description lists, one record
    /// each per counter. The two lists must be sized alike, to the count
    /// the discovery call reported, and at most `MAX_FETCH_RECORDS`: the
    /// cap this layer places on any one retrieval's allocation governs
    /// caller-sized fills too. On success both lists keep their length,
    /// each entry decoded from the reply (a record the reply did not
    /// carry reads as zero); a successful fill reporting any other count
    /// than the lists were sized for is the protocol-violation error, and
    /// a native failure propagates verbatim; on any error both lists are
    /// left unchanged.
    pub fn enumerate_physical_device_queue_family_performance_query_counters<D: Dispatch>(
        &self,
        dispatcher: &mut D,
        physical_device: vk::PhysicalDevice,
        queue_family_index: u32,
        out_counters: &mut Vec<vk::PerformanceCounterKHR>,
        out_counter_descriptions: &mut Vec<vk::PerformanceCounterDescriptionKHR>,
    ) -> (r: Result<(), FetchError>)
        requires
            !self.fp.enumerate_physical_device_queue_family_performance_query_counters_khr
                .is_null_spec(),
            old(out_counters)@.len() == old(out_counter_descriptions)@.len(),
            old(out_counters)@.len() <= MAX_FETCH_RECORDS,
        ensures
            final(out_counters)@.len() == old(out_counters)@.len(),
            final(out_counter_descriptions)@.len() == old(out_counter_descriptions)@.len(),
            r is Err ==> final(out_counters)@ == old(out_counters)@
                && final(out_counter_descriptions)@ == old(out_counter_descriptions)@,
            r is Err && r->Err_0 is Native ==> !(r->Err_0->Native_0 is Success),
    {
        let len = out_counters.len();
        let mut args: Vec<u64> = Vec::new();
        args.push(queue_family_index as u64);
        let call = RawCall {
            addr: self.fp.enumerate_physical_device_queue_family_performance_query_counters_khr
                .addr,
            handle: physical_device.raw,
            args,
            capacity: Some(len as u32),
        };
        let reply = dispatcher.call(&call);
        match check_filled_count(reply.status, reply.count, len as u32) {
            Ok(()) => {
                *out_counters = decode_counters(&reply.items, len);
                *out_counter_descriptions = decode_descriptions(&reply.extra, len);
                Ok(())
            },
            Err(e) => Err(e),
        }
    }

    /// Asks how many passes are needed to run the counters a query pool
    /// selects; the native operation reports the number with no status.
    pub fn get_physical_device_queue_family_performance_query_passes<D: Dispatch>(
        &self,
        dispatcher: &mut D,
        physical_device: vk::PhysicalDevice,
        performance_query_create_info: &vk::QueryPoolPerformanceCreateInfoKHR,
    ) -> u32
        requires
            !self.fp.get_physical_device_queue_family_performance_query_passes_khr.is_null_spec(),
    {
        let call = RawCall {
            addr: self.fp.get_physical_device_queue_family_performance_query_passes_khr.addr,
            handle: physical_device.raw,
            args: performance_query_create_info.words(),
            capacity: None,
        };
        let reply = dispatcher.call(&call);
        reply.count
    }

    /// Read access to the underlying function table, for manual invocation
    /// past the typed methods.
    pub fn fp(&self) -> (r: &KhrPerformanceQueryInstanceFn)
        ensures
            *r == self.fp,
    {
        &self.fp
    }
}

} // verus!
