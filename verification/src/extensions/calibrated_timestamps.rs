//! Calibrated-timestamps extension: reading timestamps from several time
//! domains in one call.

use crate::adapter::value_or_status;
use crate::dispatch::Dispatch;
use crate::dispatch::RawCall;
use crate::fetch::fetch_records;
use crate::fetch::FetchError;
use crate::fetch::MAX_FETCH_RECORDS;
use crate::loader::loaded_from;
use crate::loader::resolver_total;
use crate::loader::resolves;
use crate::loader::FnSlot;
use crate::vk;
use crate::vk::definitions::read_word;
use crate::vk::definitions::word_at;
use vstd::prelude::*;

verus! {

/// The canonical registration name of this extension.
pub fn extension_name() -> (r: &'static str)
    ensures
        r@ == "VK_EXT_calibrated_timestamps"@,
{
    "VK_EXT_calibrated_timestamps"
}

/// The device-scoped function table of the calibrated-timestamps
/// extension.
#[derive(Clone, Copy, PartialEq, Eq, Structural, Debug)]
pub struct ExtCalibratedTimestampsDeviceFn {
    pub get_calibrated_timestamps_ext: FnSlot,
}

impl ExtCalibratedTimestampsDeviceFn {
    /// The entry-point names of this table's slots, in slot order.
    pub open spec fn names_spec() -> Seq<Seq<char>> {
        seq!["vkGetCalibratedTimestampsEXT"@]
    }

    /// This table's slots, in the order of `names_spec`.
    pub open spec fn slots_spec(self) -> Seq<FnSlot> {
        seq![self.get_calibrated_timestamps_ext]
    }

    /// Resolves every slot of this table against the given resolver; a
    /// null answer stays a null slot.
    pub fn load<F: Fn(&'static str) -> FnSlot>(resolver: F) -> (r: Self)
        requires
            resolver_total(resolver),
        ensures
            loaded_from(resolver, Self::names_spec(), r.slots_spec()),
    {
        let n0: &'static str = "vkGetCalibratedTimestampsEXT";
        let r = ExtCalibratedTimestampsDeviceFn { get_calibrated_timestamps_ext: resolver(n0) };
        proof {
            assert(resolves(resolver, Self::names_spec()[0], r.slots_spec()[0]));
        }
        r
    }
}

/// The argument words of a calibrated-timestamps read: the number of
/// requests, then one word per requested time domain, in order.
fn timestamp_args(info: &Vec<vk::CalibratedTimestampInfoEXT>) -> (r: Vec<u64>)
    ensures
        r@ == seq![info@.len() as u64] + Seq::new(
            info@.len(),
            |i: int| info@[i].time_domain.raw as u64,
        ),
{
    let mut r: Vec<u64> = Vec::new();
    r.push(info.len() as u64);
    let mut i: usize = 0;
    while i < info.len()
        invariant
            i <= info@.len(),
            r@ =~= seq![info@.len() as u64] + Seq::new(
                i as nat,
                |j: int| info@[j].time_domain.raw as u64,
            ),
        decreases info@.len() - i,
    {
        r.push(info[i].time_domain.raw as u64);
        i = i + 1;
    }
    proof {
        assert(r@ =~= seq![info@.len() as u64] + Seq::new(
            info@.len(),
            |i: int| info@[i].time_domain.raw as u64,
        ));
    }
    r
}

/// The first `len` words of a reply buffer, read as the zero-initialized
/// buffer the operation allocated: a word the reply did not carry reads
/// as zero.
fn read_values(words: &Vec<u64>, len: usize) -> (r: Vec<u64>)
    ensures
        r@.len() == len,
        forall|i: int| 0 <= i < len ==> r@[i] == word_at(words@, i),
{
    let mut r: Vec<u64> = Vec::new();
    let mut i: usize = 0;
    while i < len
        invariant
            i <= len,
            r@.len() == i,
            forall|j: int| 0 <= j < i ==> r@[j] == word_at(words@, j),
        decreases len - i,
    {
        r.push(read_word(words, i));
        i = i + 1;
    }
    r
}

/// Device-scoped wrapper: the calibrated-timestamps device table bound to
/// the device it was resolved against.
#[derive(Clone, Copy, PartialEq, Eq, Structural, Debug)]
pub struct CalibratedTimestampsDevice {
    pub handle: vk::Device,
    pub fp: ExtCalibratedTimestampsDeviceFn,
}

impl CalibratedTimestampsDevice {
    /// Builds the table with a device-scoped resolver and binds it to the
    /// device it was resolved against.
    pub fn new<F: Fn(&'static str) -> FnSlot>(resolver: F, device: vk::Device) -> (r: Self)
        requires
            resolver_total(resolver),
        ensures
            r.handle == device,
            loaded_from(
                resolver,
                ExtCalibratedTimestampsDeviceFn::names_spec(),
                r.fp.slots_spec(),
            ),
    {
        let fp = ExtCalibratedTimestampsDeviceFn::load(resolver);
        CalibratedTimestampsDevice { handle: device, fp }
    }

    /// Reads one timestamp per requested time domain; success carries the
    /// timestamps and their per-domain maximum deviations, one of each per
    /// request, decoded from the reply (a value the reply did not carry
    /// reads as zero). Any non-success status comes back verbatim as the
    /// error.
    pub fn get_calibrated_timestamps<D: Dispatch>(
        &self,
        dispatcher: &mut D,
        info: &Vec<vk::CalibratedTimestampInfoEXT>,
    ) -> (r: Result<(Vec<u64>, Vec<u64>), vk::Status>)
        requires
            !self.fp.get_calibrated_timestamps_ext.is_null_spec(),
        ensures
            r is Ok ==> r->Ok_0.0@.len() == info@.len() && r->Ok_0.1@.len() == info@.len(),
            r is Err ==> !(r->Err_0 is Success),
    {
        let call = RawCall {
            addr: self.fp.get_calibrated_timestamps_ext.addr,
            handle: self.handle.raw,
            args: timestamp_args(info),
            capacity: None,
        };
        let reply = dispatcher.call(&call);
        let timestamps = read_values(&reply.items, info.len());
        let max_deviation = read_values(&reply.extra, info.len());
        value_or_status(reply.status, (timestamps, max_deviation))
    }

    /// Read access to the underlying function table, for manual invocation
    /// past the typed methods.
    pub fn fp(&self) -> (r: &ExtCalibratedTimestampsDeviceFn)
        ensures
            *r == self.fp,
    {
        &self.fp
    }

    /// The device this table was resolved against.
    pub fn device(&self) -> (r: vk::Device)
        ensures
            r == self.handle,
    {
        self.handle
    }
}

/// The instance-scoped function table of the calibrated-timestamps
/// extension.
#[derive(Clone, Copy, PartialEq, Eq, Structural, Debug)]
pub struct ExtCalibratedTimestampsInstanceFn {
    pub get_physical_device_calibrateable_time_domains_ext: FnSlot,
}

impl ExtCalibratedTimestampsInstanceFn {
    /// The entry-point names of this table's slots, in slot order.
    pub open spec fn names_spec() -> Seq<Seq<char>> {
        seq!["vkGetPhysicalDeviceCalibrateableTimeDomainsEXT"@]
    }

    /// This table's slots, in the order of `names_spec`.
    pub open spec fn slots_spec(self) -> Seq<FnSlot> {
        seq![self.get_physical_device_calibrateable_time_domains_ext]
    }

    /// Resolves every slot of this table against the given resolver; a
    /// null answer stays a null slot.
    pub fn load<F: Fn(&'static str) -> FnSlot>(resolver: F) -> (r: Self)
        requires
            resolver_total(resolver),
        ensures
            loaded_from(resolver, Self::names_spec(), r.slots_spec()),
    {
        let n0: &'static str = "vkGetPhysicalDeviceCalibrateableTimeDomainsEXT";
        let r = ExtCalibratedTimestampsInstanceFn {
            get_physical_device_calibrateable_time_domains_ext: resolver(n0),
        };
        proof {
            assert(resolves(resolver, Self::names_spec()[0], r.slots_spec()[0]));
        }
        r
    }
}

/// Time domains decoded from one reply word each.
fn decode_time_domains(words: &Vec<u64>) -> (r: Vec<vk::TimeDomainEXT>)
    ensures
        r@.len() == words@.len(),
        forall|i: int| 0 <= i < r@.len() ==> r@[i].raw == words@[i] as i32,
{
    let mut r: Vec<vk::TimeDomainEXT> = Vec::new();
    let mut i: usize = 0;
    while i < words.len()
        invariant
            i <= words@.len(),
            r@.len() == i,
            forall|j: int| 0 <= j < i ==> r@[j].raw == words@[j] as i32,
        decreases words@.len() - i,
    {
        r.push(vk::TimeDomainEXT { raw: words[i] as i32 });
        i = i + 1;
    }
    r
}

/// Instance-scoped wrapper: holds the instance-level table; its operation
/// takes the physical device it targets as an argument.
#[derive(Clone, Copy, PartialEq, Eq, Structural, Debug)]
pub struct CalibratedTimestampsInstance {
    pub fp: ExtCalibratedTimestampsInstanceFn,
}

impl CalibratedTimestampsInstance {
    /// Builds the table with an instance-scoped resolver.
    pub fn new<F: Fn(&'static str) -> FnSlot>(resolver: F) -> (r: Self)
        requires
            resolver_total(resolver),
        ensures
            loaded_from(
                resolver,
                ExtCalibratedTimestampsInstanceFn::names_spec(),
                r.fp.slots_spec(),
            ),
    {
        let fp = ExtCalibratedTimestampsInstanceFn::load(resolver);
        CalibratedTimestampsInstance { fp }
    }

    /// Retrieves the time domains a physical device can calibrate against
    /// through the count-then-fill protocol.
    pub fn get_physical_device_calibrateable_time_domains<D: Dispatch>(
        &self,
        dispatcher: &mut D,
        physical_device: vk::PhysicalDevice,
    ) -> (r: Result<Vec<vk::TimeDomainEXT>, FetchError>)
        requires
            !self.fp.get_physical_device_calibrateable_time_domains_ext.is_null_spec(),
        ensures
            r is Ok ==> r->Ok_0@.len() <= MAX_FETCH_RECORDS,
            r is Err && r->Err_0 is Native ==> !(r->Err_0->Native_0 is Success),
    {
        match fetch_records(
            dispatcher,
            self.fp.get_physical_device_calibrateable_time_domains_ext,
            physical_device.raw,
            Vec::new(),
            1,
        ) {
            Ok((words, _count)) => Ok(decode_time_domains(&words)),
            Err(e) => Err(e),
        }
    }

    /// Read access to the underlying function table, for manual invocation
    /// past the typed methods.
    pub fn fp(&self) -> (r: &ExtCalibratedTimestampsInstanceFn)
        ensures
            *r == self.fp,
    {
        &self.fp
    }
}

} // verus!
