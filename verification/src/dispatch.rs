//! The raw call boundary.
//!
//! Typed methods marshal their arguments into a `RawCall`, hand it to the
//! host's dispatcher, and interpret the `RawReply` that comes back. The
//! dispatcher performs the actual foreign invocation; this layer only
//! guarantees that it never hands the dispatcher a null address.

use crate::vk::Status;
use vstd::prelude::*;

verus! {

/// One marshaled native invocation: the resolved function address, the
/// scope handle the table was bound to, the argument words in ABI order,
/// and, for count-then-fill queries, the record capacity of the output
/// buffer (`None` models a null output pointer).
pub struct RawCall {
    pub addr: u64,
    pub handle: u64,
    pub args: Vec<u64>,
    pub capacity: Option<u32>,
}

/// Everything a native call reports back: the raw status, a scalar
/// out-parameter, an element-count out-parameter, and the words of the
/// primary and secondary output buffers.
///
/// An operation reads only the parts its ABI defines; the rest are
/// meaningless for it.
pub struct RawReply {
    pub status: Status,
    pub word: u64,
    pub count: u32,
    pub items: Vec<u64>,
    pub extra: Vec<u64>,
}

/// The host side of the foreign call boundary. An implementation invokes
/// the native entry point at `call.addr` with the marshaled arguments and
/// reports what it returned.
///
/// Nothing is assumed of the answers: every caller in this crate states
/// only what holds of its outcome whatever reply comes back. The one
/// demand runs the other way: a dispatcher is never handed a null address.
pub trait Dispatch {
    fn call(&mut self, call: &RawCall) -> RawReply
        requires
            call.addr != 0,
    ;
}

} // verus!
