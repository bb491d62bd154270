//! A verified model of a lazy dynamic procedure-binding framework for a
//! closed, C-ABI graphics driver, together with the managed resource layer
//! built on top of it: a bump-allocated memory arena and a command-buffer
//! resource wrapper.
//!
//! The driver's entry points are discovered at runtime through a name-to-
//! pointer lookup service.  This crate verifies every decision the layer
//! makes: which lookup service a resolution consults, when a looked-up
//! pointer may be cached, how the arena hands out byte ranges, and when a
//! backing buffer must (and must not) be freed.  The foreign calls
//! themselves — the driver's entry points and the host allocator — are
//! performed by an unverified runtime around the library, which feeds their
//! outcomes back in as plain values.

pub mod cmdbuf;
pub mod device;
pub mod flags;
pub mod handle;
pub mod pool;
pub mod registry;
pub mod resolver;
pub mod storage;

pub use cmdbuf::CommandBuffer;
pub use cmdbuf::CommandBufferBuilder;
pub use cmdbuf::RecordState;
pub use device::DriverContext;
pub use flags::MemoryPoolFlags;
pub use handle::CommandHandle;
pub use handle::HandleKind;
pub use handle::HandleState;
pub use handle::ImageHandle;
pub use handle::InitializeError;
pub use handle::OpaqueHandle;
pub use handle::TextureHandle;
pub use pool::ByteRange;
pub use pool::CpuRegion;
pub use pool::FlushRequest;
pub use pool::GpuMemory;
pub use pool::MemPool;
pub use pool::MemPoolBuilder;
pub use pool::MemPoolError;
pub use registry::BindingRegistry;
pub use resolver::BindingDescriptor;
pub use resolver::CacheSlot;
pub use resolver::CallPlan;
pub use resolver::LookupRoute;
pub use resolver::ResolverContext;
pub use resolver::ResolverMode;
pub use resolver::ResolverResult;
pub use resolver::ValueKind;
pub use storage::FreeRequest;
pub use storage::Storage;
