//! Model of the native wire format seen by this layer: status codes, opaque
//! object handles, and the plain-value structures that typed operations
//! marshal into raw call words.

pub mod definitions;
pub mod enums;
pub mod handles;

pub use definitions::AcquireNextImageInfoKHR;
pub use definitions::AcquireProfilingLockInfoKHR;
pub use definitions::AllocationCallbacks;
pub use definitions::CalibratedTimestampInfoEXT;
pub use definitions::DebugUtilsLabelEXT;
pub use definitions::DebugUtilsMessengerCallbackDataEXT;
pub use definitions::DebugUtilsMessengerCreateInfoEXT;
pub use definitions::DebugUtilsObjectNameInfoEXT;
pub use definitions::DebugUtilsObjectTagInfoEXT;
pub use definitions::DeviceGroupPresentCapabilitiesKHR;
pub use definitions::Extent2D;
pub use definitions::MultisamplePropertiesEXT;
pub use definitions::Offset2D;
pub use definitions::PerformanceCounterDescriptionKHR;
pub use definitions::PerformanceCounterKHR;
pub use definitions::PhysicalDeviceSurfaceInfo2KHR;
pub use definitions::PresentInfoKHR;
pub use definitions::QueryPoolPerformanceCreateInfoKHR;
pub use definitions::Rect2D;
pub use definitions::SampleLocationEXT;
pub use definitions::SampleLocationsInfoEXT;
pub use definitions::SwapchainCreateInfoKHR;
pub use enums::DebugUtilsMessageSeverityFlagsEXT;
pub use enums::DebugUtilsMessageTypeFlagsEXT;
pub use enums::DeviceGroupPresentModeFlagsKHR;
pub use enums::PresentModeKHR;
pub use enums::SampleCountFlags;
pub use enums::Status;
pub use enums::TimeDomainEXT;
pub use handles::CommandBuffer;
pub use handles::DebugUtilsMessengerEXT;
pub use handles::Device;
pub use handles::Fence;
pub use handles::Handle;
pub use handles::Image;
pub use handles::Instance;
pub use handles::ObjectType;
pub use handles::PhysicalDevice;
pub use handles::Queue;
pub use handles::Semaphore;
pub use handles::SurfaceKHR;
pub use handles::SwapchainKHR;
