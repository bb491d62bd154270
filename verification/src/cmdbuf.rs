//! The command-buffer resource: one driver-side command buffer object that
//! owns or borrows its control memory, references a command range inside a
//! managed arena it does not own, and walks the record/submit lifecycle
//! `Ready → Recording → Ended`.  Recording operations issued outside the
//! recording state are caller-enforced preconditions — fatal, not typed
//! errors — mirroring the framework's general policy for foreign-call
//! preconditions.

use vstd::prelude::*;

use crate::handle::CommandHandle;
use crate::handle::HandleKind;
use crate::handle::InitializeError;
use crate::handle::OpaqueHandle;
use crate::storage::FreeRequest;
use crate::storage::Storage;

verus! {

/// Where a command buffer stands in its record/submit lifecycle.
#[derive(Debug, Clone, Copy, PartialEq, Eq, Structural)]
pub enum RecordState {
    /// Object initialized, command and control memory not yet bound.
    Unbound,
    /// Memory bound; a recording may begin.
    Ready,
    /// Between `begin_recording` and `end_recording`: recording operations
    /// may be issued.
    Recording,
    /// A recording was ended and its handle yielded; `reset` returns the
    /// buffer to `Ready`.
    Ended,
}

/// Accumulates the configuration of a command buffer: the owning device, a
/// control buffer with its ownership tag, and a command-memory sub-range —
/// pool reference, offset and size — inside an arena the builder does not
/// own.  Supplying a new control buffer frees the previous one exactly
/// when it was owned.
#[derive(Debug, Clone, Copy, PartialEq, Eq, Structural)]
pub struct CommandBufferBuilder {
    /// The owning device object, by its address; `0` when unset.
    pub device: u64,
    pub control: Storage,
    /// The referenced memory pool object, by its address; `0` when unset.
    /// The builder does not own the pool.
    pub pool: u64,
    /// Offset of the command range inside the referenced pool.
    pub command_start: usize,
    /// Size of the command range.
    pub command_size: usize,
}

impl CommandBufferBuilder {
    /// A fresh builder: no device, no control memory, no command range.
    pub fn new() -> (b: Self)
        ensures
            b.device == 0,
            b.control is Empty,
            b.pool == 0,
            b.command_start == 0,
            b.command_size == 0,
    {
        CommandBufferBuilder {
            device: 0,
            control: Storage::Empty,
            pool: 0,
            command_start: 0,
            command_size: 0,
        }
    }

    /// Records the owning device.
    pub fn with_device(self, device: u64) -> (b: Self)
        ensures
            b == (CommandBufferBuilder { device, ..self }),
    {
        CommandBufferBuilder { device, ..self }
    }

    /// Supplies a control buffer that the command buffer will own and
    /// free.  The previous control buffer is freed — by the returned
    /// request — exactly when it was owned and non-null.
    pub fn with_control(self, addr: usize, size: usize) -> (r: (Self, Option<FreeRequest>))
        ensures
            r.0 == (CommandBufferBuilder { control: Storage::Owned { addr, size }, ..self }),
            r.1 == self.control.spec_release(),
    {
        let freed = self.control.release();
        (CommandBufferBuilder { control: Storage::Owned { addr, size }, ..self }, freed)
    }

    /// Supplies a control buffer that stays owned by the caller: never
    /// freed by this layer.  The previous control buffer is freed exactly
    /// when it was owned and non-null.
    pub fn with_shared_control(self, addr: usize, size: usize) -> (r: (Self, Option<FreeRequest>))
        ensures
            r.0 == (CommandBufferBuilder { control: Storage::Borrowed { addr, size }, ..self }),
            r.1 == self.control.spec_release(),
    {
        let freed = self.control.release();
        (CommandBufferBuilder { control: Storage::Borrowed { addr, size }, ..self }, freed)
    }

    /// Adopts a control buffer freshly obtained from the host allocator
    /// as owned (see [`storage_alignment`] for the alignment of that
    /// request).  Allocation failure is fatal at the allocator's edge, so
    /// the address is never null here.  The previous control buffer is
    /// freed exactly when it was owned and non-null.
    ///
    /// [`storage_alignment`]: crate::pool::storage_alignment
    pub fn make_control(self, addr: usize, size: usize) -> (r: (Self, Option<FreeRequest>))
        requires
            addr != 0,
        ensures
            r.0 == (CommandBufferBuilder { control: Storage::Owned { addr, size }, ..self }),
            r.1 == self.control.spec_release(),
    {
        self.with_control(addr, size)
    }

    /// Records the command-memory sub-range: `size` bytes at `start`
    /// inside the referenced pool.
    pub fn with_command(self, pool: u64, start: usize, size: usize) -> (b: Self)
        ensures
            b == (CommandBufferBuilder {
                pool,
                command_start: start,
                command_size: size,
                ..self
            }),
    {
        CommandBufferBuilder { pool, command_start: start, command_size: size, ..self }
    }

    /// Consumes the builder into a command buffer; `init_ok` is the
    /// outcome the driver reported for the foreign initialize call.  On
    /// failure the builder comes back unchanged, still owning its control
    /// buffer.
    pub fn finish(self, init_ok: bool) -> (r: Result<CommandBuffer, (Self, InitializeError)>)
        ensures
            init_ok ==> (r matches Ok(c) && c == (CommandBuffer {
                handle: OpaqueHandle {
                    kind: HandleKind::CommandBuffer,
                    state: crate::handle::HandleState::Initialized,
                },
                state: RecordState::Ready,
                control: self.control,
                pool: self.pool,
                command_start: self.command_start,
                command_size: self.command_size,
            }) && c.wf()),
            !init_ok ==> (r matches Err(e) && e.0 == self && e.1 == (InitializeError {
                kind: HandleKind::CommandBuffer,
            })),
    {
        CommandBuffer::create(self, init_ok)
    }

    /// Abandons the builder unused.  Its control buffer is freed exactly
    /// when it was owned and non-null.
    pub fn teardown(self) -> (r: Option<FreeRequest>)
        ensures
            r == self.control.spec_release(),
    {
        self.control.release()
    }
}

/// The managed command buffer: one initialized command buffer object, the
/// control buffer with the ownership tag carried over from the builder,
/// the referenced command range, and the record/submit state.
#[derive(Debug, Clone, Copy, PartialEq, Eq, Structural)]
pub struct CommandBuffer {
    pub handle: OpaqueHandle,
    pub state: RecordState,
    pub control: Storage,
    /// The referenced memory pool object, by its address.  Not owned by
    /// this resource, and never freed by it.
    pub pool: u64,
    pub command_start: usize,
    pub command_size: usize,
}

impl CommandBuffer {
    /// The resource's invariant: an initialized command buffer object.
    pub open spec fn wf(self) -> bool {
        &&& self.handle.kind is CommandBuffer
        &&& self.handle.state is Initialized
    }

    /// Starts configuring a command buffer.
    pub fn new() -> (b: CommandBufferBuilder)
        ensures
            b.device == 0,
            b.control is Empty,
            b.pool == 0,
            b.command_start == 0,
            b.command_size == 0,
    {
        CommandBufferBuilder::new()
    }

    /// Initializes a command buffer object against a builder's
    /// configuration; `init_ok` is the outcome the driver reported.  On
    /// success the resource comes back already `reset` — command range and
    /// control buffer bound, ready for its first recording.  On failure
    /// the builder comes back unchanged with a typed error.
    pub fn create(builder: CommandBufferBuilder, init_ok: bool) -> (r: Result<
        Self,
        (CommandBufferBuilder, InitializeError),
    >)
        ensures
            init_ok ==> (r matches Ok(c) && c == (CommandBuffer {
                handle: OpaqueHandle {
                    kind: HandleKind::CommandBuffer,
                    state: crate::handle::HandleState::Initialized,
                },
                state: RecordState::Ready,
                control: builder.control,
                pool: builder.pool,
                command_start: builder.command_start,
                command_size: builder.command_size,
            }) && c.wf()),
            !init_ok ==> (r matches Err(e) && e.0 == builder && e.1 == (InitializeError {
                kind: HandleKind::CommandBuffer,
            })),
    {
        let mut handle = OpaqueHandle::new(HandleKind::CommandBuffer);
        handle.initialize(init_ok);
        if init_ok {
            let mut ret = CommandBuffer {
                handle,
                state: RecordState::Unbound,
                control: builder.control,
                pool: builder.pool,
                command_start: builder.command_start,
                command_size: builder.command_size,
            };
            ret.reset();
            Ok(ret)
        } else {
            Err((builder, InitializeError { kind: HandleKind::CommandBuffer }))
        }
    }

    /// Binds the command range and the control buffer to the object — the
    /// runtime performs the two foreign add-memory calls with exactly the
    /// recorded range and buffer — and makes the buffer ready to record.
    /// Runs once after `create` and again after `end_recording` to return
    /// from `Ended` to `Ready`; a buffer that is mid-recording cannot be
    /// rebound.
    pub fn reset(&mut self)
        requires
            old(self).state !is Recording,
        ensures
            *final(self) == (CommandBuffer { state: RecordState::Ready, ..*old(self) }),
    {
        self.state = RecordState::Ready;
    }

    /// Opens a recording.  The buffer must be ready: recording on an
    /// unbound or already-recording buffer is a caller-enforced
    /// precondition, not a typed error.
    pub fn begin_recording(&mut self)
        requires
            old(self).wf(),
            old(self).state is Ready,
        ensures
            *final(self) == (CommandBuffer { state: RecordState::Recording, ..*old(self) }),
    {
        self.state = RecordState::Recording;
    }

    /// Closes the recording, yielding the opaque handle the driver minted
    /// for the recorded command sequence, for later submission.
    pub fn end_recording(&mut self, raw: u64) -> (h: CommandHandle)
        requires
            old(self).wf(),
            old(self).state is Recording,
        ensures
            *final(self) == (CommandBuffer { state: RecordState::Ended, ..*old(self) }),
            h == CommandHandle(raw),
    {
        self.state = RecordState::Ended;
        CommandHandle(raw)
    }

    /// The underlying command buffer object, for declared read-only
    /// operations.
    pub fn as_ref(&self) -> (h: &OpaqueHandle)
        ensures
            *h == self.handle,
    {
        &self.handle
    }

    /// The underlying command buffer object, for declared exclusive
    /// operations.
    pub fn as_mut(&mut self) -> (h: &mut OpaqueHandle)
        ensures
            *h == old(self).handle,
            final(self).handle == *final(h),
            final(self).state == old(self).state,
            final(self).control == old(self).control,
            final(self).pool == old(self).pool,
            final(self).command_start == old(self).command_start,
            final(self).command_size == old(self).command_size,
    {
        &mut self.handle
    }

    /// Tears the resource down: the control buffer is freed — by the
    /// returned request — exactly when this resource owned it and it is
    /// non-null.  The referenced pool is not owned by this resource and is
    /// never freed by it.
    pub fn teardown(self) -> (r: Option<FreeRequest>)
        ensures
            r == self.control.spec_release(),
    {
        self.control.release()
    }
}

} // verus!
