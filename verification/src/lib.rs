pub mod buffer;
pub mod device;
pub mod instance;
pub mod swapchain;

pub use buffer::Buffer;
pub use buffer::BufferError;
pub use buffer::MemoryLocation;
pub use buffer::SHADER_DEVICE_ADDRESS_USAGE;
pub use device::Device;
pub use device::PendingDestruction;
pub use device::ResourceToDestroy;
pub use device::SemaphoreSignal;
pub use instance::PhysicalDeviceInfo;
pub use swapchain::AcquireOutcome;
pub use swapchain::AcquireStep;
pub use swapchain::FrameSlot;
pub use swapchain::FramePhase;
pub use swapchain::PresentOutcome;
pub use swapchain::PresentPlan;
pub use swapchain::RenderResult;
pub use swapchain::RenderSync;
pub use swapchain::SubmitPlan;
pub use swapchain::SurfaceCapabilities;
pub use swapchain::Swapchain;
pub use swapchain::FRAMES_IN_FLIGHT_COUNT;
