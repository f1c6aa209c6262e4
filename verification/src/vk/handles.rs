//! Opaque native object handles.
//!
//! A handle is a lightweight 64-bit reference owned by the host; this layer
//! never creates or destroys the underlying object, it only carries the raw
//! value through calls.

use vstd::prelude::*;

verus! {

/// The kind of native object a handle refers to.
#[derive(Clone, Copy, PartialEq, Eq, Structural, Debug)]
pub enum ObjectType {
    Unknown,
    Instance,
    PhysicalDevice,
    Device,
    Queue,
    Semaphore,
    CommandBuffer,
    Fence,
    Image,
    SurfaceKhr,
    SwapchainKhr,
    DebugUtilsMessengerExt,
}

/// An opaque native object handle: a raw 64-bit value with a statically
/// known object kind.
pub trait Handle: Sized {
    /// The raw value a handle carries.
    spec fn raw_spec(self) -> u64;

    /// The kind of object this handle type refers to.
    fn object_type() -> ObjectType;

    /// The raw 64-bit value of this handle.
    fn as_raw(self) -> (r: u64)
        ensures
            r == self.raw_spec(),
    ;

    /// The handle carrying a given raw value.
    fn from_raw(raw: u64) -> (r: Self)
        ensures
            r.raw_spec() == raw,
    ;
}

#[derive(Clone, Copy, PartialEq, Eq, Structural, Debug)]
pub struct Instance {
    pub raw: u64,
}

impl Handle for Instance {
    open spec fn raw_spec(self) -> u64 {
        self.raw
    }

    fn object_type() -> ObjectType {
        ObjectType::Instance
    }

    fn as_raw(self) -> u64 {
        self.raw
    }

    fn from_raw(raw: u64) -> Self {
        Instance { raw }
    }
}

#[derive(Clone, Copy, PartialEq, Eq, Structural, Debug)]
pub struct PhysicalDevice {
    pub raw: u64,
}

impl Handle for PhysicalDevice {
    open spec fn raw_spec(self) -> u64 {
        self.raw
    }

    fn object_type() -> ObjectType {
        ObjectType::PhysicalDevice
    }

    fn as_raw(self) -> u64 {
        self.raw
    }

    fn from_raw(raw: u64) -> Self {
        PhysicalDevice { raw }
    }
}

#[derive(Clone, Copy, PartialEq, Eq, Structural, Debug)]
pub struct Device {
    pub raw: u64,
}

impl Handle for Device {
    open spec fn raw_spec(self) -> u64 {
        self.raw
    }

    fn object_type() -> ObjectType {
        ObjectType::Device
    }

    fn as_raw(self) -> u64 {
        self.raw
    }

    fn from_raw(raw: u64) -> Self {
        Device { raw }
    }
}

#[derive(Clone, Copy, PartialEq, Eq, Structural, Debug)]
pub struct Queue {
    pub raw: u64,
}

impl Handle for Queue {
    open spec fn raw_spec(self) -> u64 {
        self.raw
    }

    fn object_type() -> ObjectType {
        ObjectType::Queue
    }

    fn as_raw(self) -> u64 {
        self.raw
    }

    fn from_raw(raw: u64) -> Self {
        Queue { raw }
    }
}

#[derive(Clone, Copy, PartialEq, Eq, Structural, Debug)]
pub struct Semaphore {
    pub raw: u64,
}

impl Handle for Semaphore {
    open spec fn raw_spec(self) -> u64 {
        self.raw
    }

    fn object_type() -> ObjectType {
        ObjectType::Semaphore
    }

    fn as_raw(self) -> u64 {
        self.raw
    }

    fn from_raw(raw: u64) -> Self {
        Semaphore { raw }
    }
}

#[derive(Clone, Copy, PartialEq, Eq, Structural, Debug)]
pub struct CommandBuffer {
    pub raw: u64,
}

impl Handle for CommandBuffer {
    open spec fn raw_spec(self) -> u64 {
        self.raw
    }

    fn object_type() -> ObjectType {
        ObjectType::CommandBuffer
    }

    fn as_raw(self) -> u64 {
        self.raw
    }

    fn from_raw(raw: u64) -> Self {
        CommandBuffer { raw }
    }
}

#[derive(Clone, Copy, PartialEq, Eq, Structural, Debug)]
pub struct Fence {
    pub raw: u64,
}

impl Handle for Fence {
    open spec fn raw_spec(self) -> u64 {
        self.raw
    }

    fn object_type() -> ObjectType {
        ObjectType::Fence
    }

    fn as_raw(self) -> u64 {
        self.raw
    }

    fn from_raw(raw: u64) -> Self {
        Fence { raw }
    }
}

#[derive(Clone, Copy, PartialEq, Eq, Structural, Debug)]
pub struct Image {
    pub raw: u64,
}

impl Handle for Image {
    open spec fn raw_spec(self) -> u64 {
        self.raw
    }

    fn object_type() -> ObjectType {
        ObjectType::Image
    }

    fn as_raw(self) -> u64 {
        self.raw
    }

    fn from_raw(raw: u64) -> Self {
        Image { raw }
    }
}

#[derive(Clone, Copy, PartialEq, Eq, Structural, Debug)]
pub struct SurfaceKHR {
    pub raw: u64,
}

impl Handle for SurfaceKHR {
    open spec fn raw_spec(self) -> u64 {
        self.raw
    }

    fn object_type() -> ObjectType {
        ObjectType::SurfaceKhr
    }

    fn as_raw(self) -> u64 {
        self.raw
    }

    fn from_raw(raw: u64) -> Self {
        SurfaceKHR { raw }
    }
}

#[derive(Clone, Copy, PartialEq, Eq, Structural, Debug)]
pub struct SwapchainKHR {
    pub raw: u64,
}

impl Handle for SwapchainKHR {
    open spec fn raw_spec(self) -> u64 {
        self.raw
    }

    fn object_type() -> ObjectType {
        ObjectType::SwapchainKhr
    }

    fn as_raw(self) -> u64 {
        self.raw
    }

    fn from_raw(raw: u64) -> Self {
        SwapchainKHR { raw }
    }
}

#[derive(Clone, Copy, PartialEq, Eq, Structural, Debug)]
pub struct DebugUtilsMessengerEXT {
    pub raw: u64,
}

impl Handle for DebugUtilsMessengerEXT {
    open spec fn raw_spec(self) -> u64 {
        self.raw
    }

    fn object_type() -> ObjectType {
        ObjectType::DebugUtilsMessengerExt
    }

    fn as_raw(self) -> u64 {
        self.raw
    }

    fn from_raw(raw: u64) -> Self {
        DebugUtilsMessengerEXT { raw }
    }
}

} // verus!
