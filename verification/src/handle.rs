//! Opaque driver-side objects.  The driver owns the layout of every object;
//! this layer sees each one as a fixed-size, zero-initialized, address-stable
//! blob manipulated only through declared operations.  What the layer *does*
//! track — and what this module verifies — is each object's kind, its
//! declared byte size (a hard contract with the driver: a mismatch means
//! silent memory corruption), and its lifecycle: initialized exactly once
//! before any other operation, finalized exactly once before destruction.

use vstd::prelude::*;

verus! {

/// The kinds of driver-side objects this layer manages.  Each kind has one
/// fixed declared byte size.
#[derive(Debug, Clone, Copy, PartialEq, Eq, Structural)]
pub enum HandleKind {
    Device,
    Queue,
    MemoryPool,
    CommandBuffer,
    Texture,
    DeviceBuilder,
    QueueBuilder,
    MemoryPoolBuilder,
}

impl HandleKind {
    /// The declared byte size of an object of this kind.  These values are a
    /// contract with the specific driver version and must match it exactly.
    pub open spec fn spec_size(self) -> usize {
        match self {
            HandleKind::Device => 0x3000,
            HandleKind::Queue => 0x2000,
            HandleKind::MemoryPool => 256,
            HandleKind::CommandBuffer => 160,
            HandleKind::Texture => 192,
            HandleKind::DeviceBuilder => 0x40,
            HandleKind::QueueBuilder => 0x40,
            HandleKind::MemoryPoolBuilder => 64,
        }
    }

    /// The declared byte size of an object of this kind.
    pub fn declared_size(self) -> (n: usize)
        ensures
            n == self.spec_size(),
    {
        match self {
            HandleKind::Device => 0x3000,
            HandleKind::Queue => 0x2000,
            HandleKind::MemoryPool => 256,
            HandleKind::CommandBuffer => 160,
            HandleKind::Texture => 192,
            HandleKind::DeviceBuilder => 0x40,
            HandleKind::QueueBuilder => 0x40,
            HandleKind::MemoryPoolBuilder => 64,
        }
    }

    /// A diagnostic name for this kind.
    pub fn name(self) -> (r: &'static str)
        ensures
            self is Device ==> r@ == "Device"@,
            self is Queue ==> r@ == "Queue"@,
            self is MemoryPool ==> r@ == "MemoryPool"@,
            self is CommandBuffer ==> r@ == "CommandBuffer"@,
            self is Texture ==> r@ == "Texture"@,
            self is DeviceBuilder ==> r@ == "DeviceBuilder"@,
            self is QueueBuilder ==> r@ == "QueueBuilder"@,
            self is MemoryPoolBuilder ==> r@ == "MemoryPoolBuilder"@,
    {
        match self {
            HandleKind::Device => "Device",
            HandleKind::Queue => "Queue",
            HandleKind::MemoryPool => "MemoryPool",
            HandleKind::CommandBuffer => "CommandBuffer",
            HandleKind::Texture => "Texture",
            HandleKind::DeviceBuilder => "DeviceBuilder",
            HandleKind::QueueBuilder => "QueueBuilder",
            HandleKind::MemoryPoolBuilder => "MemoryPoolBuilder",
        }
    }
}

/// Where an opaque object stands in its lifecycle.
#[derive(Debug, Clone, Copy, PartialEq, Eq, Structural)]
pub enum HandleState {
    /// Constructed as an all-zero blob; no foreign call has been made on it.
    Created,
    /// Its foreign `initialize` has succeeded; operations may be invoked.
    Initialized,
    /// Its foreign `finalize` has run; nothing further may be invoked.
    Finalized,
}

/// One driver-side object.  The blob's bytes are never read or written by
/// this layer, so the model carries only the kind and the lifecycle state;
/// the identity of the object is the address of its blob, which the
/// surrounding runtime keeps stable.
#[derive(Debug, Clone, Copy, PartialEq, Eq, Structural)]
pub struct OpaqueHandle {
    pub kind: HandleKind,
    pub state: HandleState,
}

impl OpaqueHandle {
    /// Constructs an object of the given kind.  The runtime backs it with a
    /// zero-initialized blob of `kind.spec_size()` bytes; no foreign call is
    /// made until `initialize`.
    pub fn new(kind: HandleKind) -> (h: Self)
        ensures
            h.kind == kind,
            h.state is Created,
    {
        OpaqueHandle { kind, state: HandleState::Created }
    }

    /// Records the outcome of the object's foreign `initialize` call.  The
    /// call may be made at most once successfully; a failed attempt leaves
    /// the object uninitialized and eligible for another attempt.
    pub fn initialize(&mut self, success: bool)
        requires
            old(self).state is Created,
        ensures
            final(self).kind == old(self).kind,
            success ==> final(self).state is Initialized,
            !success ==> final(self).state is Created,
    {
        if success {
            self.state = HandleState::Initialized;
        }
    }

    /// Records the object's foreign `finalize` call: only an initialized
    /// object may be finalized, and only once.
    pub fn finalize(&mut self)
        requires
            old(self).state is Initialized,
        ensures
            final(self).kind == old(self).kind,
            final(self).state is Finalized,
    {
        self.state = HandleState::Finalized;
    }

    /// Whether operations may be invoked on the object.
    pub fn is_initialized(&self) -> (r: bool)
        ensures
            r == (self.state is Initialized),
    {
        matches!(self.state, HandleState::Initialized)
    }
}

/// A handle for a recorded command sequence, yielded by ending a recording
/// and consumed by submission.  Its value is driver-defined.
#[derive(Debug, Clone, Copy, PartialEq, Eq, Structural)]
pub struct CommandHandle(pub u64);

/// A driver-defined handle naming a texture together with a sampler.
#[derive(Debug, Clone, Copy, PartialEq, Eq, Structural)]
pub struct TextureHandle(pub u64);

/// A driver-defined handle naming a texture as a writable image.
#[derive(Debug, Clone, Copy, PartialEq, Eq, Structural)]
pub struct ImageHandle(pub u64);

/// A wrapped object's foreign `initialize` call reported failure.  Carries
/// the owner kind for diagnostics; the caller may retry with a different
/// configuration or abandon the builder.
#[derive(Debug, Clone, Copy, PartialEq, Eq, Structural)]
pub struct InitializeError {
    pub kind: HandleKind,
}

impl InitializeError {
    /// The kind of object whose initialization failed, by its diagnostic
    /// name.
    pub fn describe(&self) -> (r: &'static str)
        ensures
            self.kind is Device ==> r@ == "Device"@,
            self.kind is Queue ==> r@ == "Queue"@,
            self.kind is MemoryPool ==> r@ == "MemoryPool"@,
            self.kind is CommandBuffer ==> r@ == "CommandBuffer"@,
            self.kind is Texture ==> r@ == "Texture"@,
            self.kind is DeviceBuilder ==> r@ == "DeviceBuilder"@,
            self.kind is QueueBuilder ==> r@ == "QueueBuilder"@,
            self.kind is MemoryPoolBuilder ==> r@ == "MemoryPoolBuilder"@,
    {
        self.kind.name()
    }
}

} // verus!
