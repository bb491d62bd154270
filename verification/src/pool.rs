//! The managed arena: a bump allocator over one driver-side memory pool
//! object.  A builder accumulates device, flags and a backing buffer with
//! its ownership tag; the pool then issues monotonically increasing,
//! non-overlapping byte ranges from a single counter, and a borrowed range
//! guarantees a coherency flush of exactly its own bytes when it is
//! released.

use vstd::prelude::*;

use crate::flags::MemoryPoolFlags;
use crate::handle::HandleKind;
use crate::handle::InitializeError;
use crate::handle::OpaqueHandle;
use crate::storage::FreeRequest;
use crate::storage::Storage;

verus! {

/// The recoverable failures of the arena and of its memory ranges.
#[derive(Debug, Clone, Copy, PartialEq, Eq, Structural)]
pub enum MemPoolError {
    /// The pool's flags declare no CPU access.
    NoCPUAccess,
    /// The requested range does not fit in the pool's remaining bytes.
    OutOfMemory,
    /// The underlying map operation returned null.
    NullMemory,
}

/// A half-open range of byte offsets `[start, end)` within a pool.
#[derive(Debug, Clone, Copy, PartialEq, Eq, Structural)]
pub struct ByteRange {
    pub start: usize,
    pub end: usize,
}

/// An instruction to the surrounding runtime: make `[start, end)` of the
/// pool coherent between CPU and device, by the pool's foreign flush
/// operation.
#[derive(Debug, Clone, Copy, PartialEq, Eq, Structural)]
pub struct FlushRequest {
    pub start: usize,
    pub end: usize,
}

/// A CPU-visible view of a pool's mapped bytes: the mapping's address and
/// its length, to be reinterpreted as a byte slice by the runtime.
#[derive(Debug, Clone, Copy, PartialEq, Eq, Structural)]
pub struct CpuRegion {
    pub addr: usize,
    pub len: usize,
}

/// The host allocator's default alignment for backing buffers: one page.
pub const DEFAULT_STORAGE_ALIGN: usize = 0x1000;

/// The alignment a builder requests from the host allocator: the caller's
/// choice, or one page by default.
pub fn storage_alignment(align: Option<usize>) -> (a: usize)
    ensures
        align matches Some(v) ==> a == v,
        align is None ==> a == DEFAULT_STORAGE_ALIGN,
{
    match align {
        Some(v) => v,
        None => DEFAULT_STORAGE_ALIGN,
    }
}

/// Accumulates the configuration of a memory pool: the owning device, the
/// flag word, and a backing buffer together with its ownership tag.
/// Supplying a new buffer frees the previous one exactly when it was
/// owned; the free itself is handed out as a [`FreeRequest`].
#[derive(Debug, Clone, Copy, PartialEq, Eq, Structural)]
pub struct MemPoolBuilder {
    /// The owning device object, by its address; `0` when unset.
    pub device: u64,
    pub flags: MemoryPoolFlags,
    pub storage: Storage,
}

impl MemPoolBuilder {
    /// A fresh builder with driver defaults: no device, all flag bits
    /// clear, no backing buffer.
    pub fn new() -> (b: Self)
        ensures
            b.device == 0,
            b.flags == MemoryPoolFlags::none(),
            b.storage is Empty,
    {
        MemPoolBuilder { device: 0, flags: MemoryPoolFlags::none(), storage: Storage::Empty }
    }

    /// Records the owning device.
    pub fn with_device(self, device: u64) -> (b: Self)
        ensures
            b == (MemPoolBuilder { device, ..self }),
    {
        MemPoolBuilder { device, ..self }
    }

    /// Records the flag word.
    pub fn with_flags(self, flags: MemoryPoolFlags) -> (b: Self)
        ensures
            b == (MemPoolBuilder { flags, ..self }),
    {
        MemPoolBuilder { flags, ..self }
    }

    /// Supplies a backing buffer that the pool will own and free.  The
    /// previous buffer is freed — by the returned request — exactly when
    /// it was owned and non-null.
    pub fn with_storage(self, addr: usize, size: usize) -> (r: (Self, Option<FreeRequest>))
        ensures
            r.0 == (MemPoolBuilder { storage: Storage::Owned { addr, size }, ..self }),
            r.1 == self.storage.spec_release(),
    {
        let freed = self.storage.release();
        (MemPoolBuilder { storage: Storage::Owned { addr, size }, ..self }, freed)
    }

    /// Supplies a backing buffer that stays owned by the caller: the pool
    /// never frees it.  The previous buffer is freed exactly when it was
    /// owned and non-null.
    pub fn with_shared_storage(self, addr: usize, size: usize) -> (r: (Self, Option<FreeRequest>))
        ensures
            r.0 == (MemPoolBuilder { storage: Storage::Borrowed { addr, size }, ..self }),
            r.1 == self.storage.spec_release(),
    {
        let freed = self.storage.release();
        (MemPoolBuilder { storage: Storage::Borrowed { addr, size }, ..self }, freed)
    }

    /// Adopts a buffer freshly obtained from the host allocator (see
    /// [`storage_alignment`] for the alignment of that request) as owned
    /// storage.  Allocation failure is fatal at the allocator's edge, so
    /// the address is never null here.  The previous buffer is freed
    /// exactly when it was owned and non-null.
    pub fn make_storage(self, addr: usize, size: usize) -> (r: (Self, Option<FreeRequest>))
        requires
            addr != 0,
        ensures
            r.0 == (MemPoolBuilder { storage: Storage::Owned { addr, size }, ..self }),
            r.1 == self.storage.spec_release(),
    {
        self.with_storage(addr, size)
    }

    /// Initializes a pool object against this configuration; `init_ok` is
    /// the outcome the driver reported for the foreign initialize call.
    /// On failure nothing is allocated or freed: the builder comes back
    /// unchanged, still owning its buffer.
    pub fn create(self, init_ok: bool) -> (r: Result<MemPool, (Self, InitializeError)>)
        ensures
            init_ok ==> (r matches Ok(p) && p == (MemPool {
                handle: OpaqueHandle {
                    kind: HandleKind::MemoryPool,
                    state: crate::handle::HandleState::Initialized,
                },
                flags: self.flags,
                storage: self.storage,
                offset: 0,
            }) && p.wf()),
            !init_ok ==> (r matches Err(e) && e.0 == self && e.1 == (InitializeError {
                kind: HandleKind::MemoryPool,
            })),
    {
        MemPool::create(self, init_ok)
    }

    /// Consumes the builder into a pool; the same contract as [`create`].
    ///
    /// [`create`]: MemPoolBuilder::create
    pub fn finish(self, init_ok: bool) -> (r: Result<MemPool, (Self, InitializeError)>)
        ensures
            init_ok ==> (r matches Ok(p) && p == (MemPool {
                handle: OpaqueHandle {
                    kind: HandleKind::MemoryPool,
                    state: crate::handle::HandleState::Initialized,
                },
                flags: self.flags,
                storage: self.storage,
                offset: 0,
            }) && p.wf()),
            !init_ok ==> (r matches Err(e) && e.0 == self && e.1 == (InitializeError {
                kind: HandleKind::MemoryPool,
            })),
    {
        MemPool::create(self, init_ok)
    }

    /// Abandons the builder unused.  Its buffer is freed exactly when it
    /// was owned and non-null.
    pub fn teardown(self) -> (r: Option<FreeRequest>)
        ensures
            r == self.storage.spec_release(),
    {
        self.storage.release()
    }
}

/// The managed arena: one initialized pool object, its flag word, its
/// backing buffer with the ownership tag carried over from the builder,
/// and the bump counter.  `offset` never exceeds the pool's size.
#[derive(Debug, Clone, Copy, PartialEq, Eq, Structural)]
pub struct MemPool {
    pub handle: OpaqueHandle,
    pub flags: MemoryPoolFlags,
    pub storage: Storage,
    pub offset: usize,
}

impl MemPool {
    /// The pool's declared size: the size of its backing buffer.
    pub open spec fn spec_size(self) -> usize {
        self.storage.spec_size()
    }

    /// The pool's invariant: an initialized pool object and a bump counter
    /// within bounds.
    pub open spec fn wf(self) -> bool {
        &&& self.handle.kind is MemoryPool
        &&& self.handle.state is Initialized
        &&& self.offset <= self.spec_size()
    }

    /// Starts configuring a pool.
    pub fn new() -> (b: MemPoolBuilder)
        ensures
            b.device == 0,
            b.flags == MemoryPoolFlags::none(),
            b.storage is Empty,
    {
        MemPoolBuilder::new()
    }

    /// Initializes a pool object against a builder's configuration;
    /// `init_ok` is the outcome the driver reported.  On success the pool
    /// starts empty and takes over the builder's buffer, tag and all; on
    /// failure the builder comes back unchanged with a typed error.
    pub fn create(builder: MemPoolBuilder, init_ok: bool) -> (r: Result<Self, (MemPoolBuilder, InitializeError)>)
        ensures
            init_ok ==> (r matches Ok(p) && p == (MemPool {
                handle: OpaqueHandle {
                    kind: HandleKind::MemoryPool,
                    state: crate::handle::HandleState::Initialized,
                },
                flags: builder.flags,
                storage: builder.storage,
                offset: 0,
            }) && p.wf()),
            !init_ok ==> (r matches Err(e) && e.0 == builder && e.1 == (InitializeError {
                kind: HandleKind::MemoryPool,
            })),
    {
        let mut handle = OpaqueHandle::new(HandleKind::MemoryPool);
        handle.initialize(init_ok);
        if init_ok {
            Ok(MemPool { handle, flags: builder.flags, storage: builder.storage, offset: 0 })
        } else {
            Err((builder, InitializeError { kind: HandleKind::MemoryPool }))
        }
    }

    /// The pool's declared size in bytes.
    pub fn get_size(&self) -> (n: usize)
        ensures
            n == self.spec_size(),
    {
        match self.storage {
            Storage::Empty => 0,
            Storage::Owned { size, .. } => size,
            Storage::Borrowed { size, .. } => size,
        }
    }

    /// Reserves `size` bytes from the bump counter.  When the request
    /// fits, the returned range is exactly `[offset, offset + size)` and
    /// the counter advances by `size`; ranges from successive calls are
    /// therefore non-overlapping and gapless.  When `offset + size` would
    /// exceed the pool's size, the counter is left unchanged and the call
    /// fails with `OutOfMemory` — a failed reservation consumes no space.
    pub fn reserve_mem(&mut self, size: usize) -> (r: Result<GpuMemory, MemPoolError>)
        requires
            old(self).wf(),
        ensures
            final(self).wf(),
            old(self).offset + size <= old(self).spec_size() ==> {
                &&& r matches Ok(m) && m == (GpuMemory {
                    start: old(self).offset,
                    end: (old(self).offset + size) as usize,
                    flags: old(self).flags,
                    pool_size: old(self).spec_size(),
                })
                &&& *final(self) == (MemPool {
                    offset: (old(self).offset + size) as usize,
                    ..*old(self)
                })
            },
            old(self).offset + size > old(self).spec_size() ==> {
                &&& r matches Err(e) && e is OutOfMemory
                &&& *final(self) == *old(self)
            },
    {
        let pool_size = self.get_size();
        if size > pool_size - self.offset {
            Err(MemPoolError::OutOfMemory)
        } else {
            let start = self.offset;
            self.offset = start + size;
            Ok(GpuMemory { start, end: start + size, flags: self.flags, pool_size })
        }
    }

    /// The underlying pool object, for declared read-only operations.
    pub fn as_ref(&self) -> (h: &OpaqueHandle)
        ensures
            *h == self.handle,
    {
        &self.handle
    }

    /// The underlying pool object, for declared exclusive operations.
    pub fn as_mut(&mut self) -> (h: &mut OpaqueHandle)
        ensures
            *h == old(self).handle,
            final(self).handle == *final(h),
            final(self).flags == old(self).flags,
            final(self).storage == old(self).storage,
            final(self).offset == old(self).offset,
    {
        &mut self.handle
    }

    /// Tears the pool down: the runtime finalizes the pool object and then
    /// frees the backing buffer — by the returned request — exactly when
    /// the pool owned it and it is non-null.  A borrowed buffer is never
    /// freed.
    pub fn teardown(self) -> (r: Option<FreeRequest>)
        ensures
            r == self.storage.spec_release(),
    {
        self.storage.release()
    }
}

/// A borrowed view of one reserved range `[start, end)` of a pool, with
/// CPU-access gating.  Releasing the view — however it was used — hands
/// out exactly one flush scoped to exactly its own range.
#[derive(Debug, Clone, Copy, PartialEq, Eq, Structural)]
pub struct GpuMemory {
    pub start: usize,
    pub end: usize,
    /// The pool's flag word, which gates CPU access to the range.
    pub flags: MemoryPoolFlags,
    /// The pool's declared size: the length of the mapping behind
    /// [`GpuMemory::cpu`].
    pub pool_size: usize,
}

impl GpuMemory {
    /// A range lies within its pool.
    pub open spec fn wf(self) -> bool {
        self.start <= self.end <= self.pool_size
    }

    /// The CPU's view of the pool's bytes.  `map_addr` is what the pool's
    /// foreign map operation returned.  Fails with `NoCPUAccess` when the
    /// pool's flags declare no CPU access, with `NullMemory` when the map
    /// operation returned null; otherwise the whole pool mapping is
    /// returned.
    pub fn cpu(&self, map_addr: usize) -> (r: Result<CpuRegion, MemPoolError>)
        ensures
            self.flags.cpu_no_access ==> (r matches Err(e) && e is NoCPUAccess),
            !self.flags.cpu_no_access && map_addr == 0 ==> (r matches Err(e) && e is NullMemory),
            !self.flags.cpu_no_access && map_addr != 0 ==> (r matches Ok(c) && c == (CpuRegion {
                addr: map_addr,
                len: self.pool_size,
            })),
    {
        if self.flags.cpu_no_access {
            Err(MemPoolError::NoCPUAccess)
        } else if map_addr == 0 {
            Err(MemPoolError::NullMemory)
        } else {
            Ok(CpuRegion { addr: map_addr, len: self.pool_size })
        }
    }

    /// The CPU's view without the gating checks.  Reinterpreting a null
    /// mapping is fatal, so the mapping must be non-null.
    pub fn cpu_unchecked(&self, map_addr: usize) -> (c: CpuRegion)
        requires
            map_addr != 0,
        ensures
            c == (CpuRegion { addr: map_addr, len: self.pool_size }),
    {
        CpuRegion { addr: map_addr, len: self.pool_size }
    }

    /// The range this view covers.
    pub fn range(&self) -> (r: ByteRange)
        ensures
            r == (ByteRange { start: self.start, end: self.end }),
    {
        ByteRange { start: self.start, end: self.end }
    }

    /// Ends the borrow, keeping the range: the view is released — with its
    /// flush — and the range handed back.
    pub fn into_range(self) -> (r: (ByteRange, FlushRequest))
        ensures
            r.0 == (ByteRange { start: self.start, end: self.end }),
            r.1 == (FlushRequest { start: self.start, end: self.end }),
    {
        (ByteRange { start: self.start, end: self.end }, self.release())
    }

    /// Releases the view.  Exactly one flush is handed out, scoped to
    /// exactly `[start, end)` — whether the range was read, written or
    /// untouched — on every exit path, since the view cannot be dropped
    /// without being consumed here or in [`GpuMemory::into_range`].
    pub fn release(self) -> (f: FlushRequest)
        ensures
            f == (FlushRequest { start: self.start, end: self.end }),
    {
        FlushRequest { start: self.start, end: self.end }
    }
}

/// The bytes demanded by the first `k` of a sequence of reservations.
pub open spec fn total_demand(sizes: Seq<usize>, k: int) -> int
    decreases k,
{
    if k <= 0 {
        0
    } else {
        total_demand(sizes, k - 1) + sizes[k - 1]
    }
}

/// Where the `i`-th reservation of the sequence starts: at the demand of
/// everything before it.  Successive successful calls to
/// [`MemPool::reserve_mem`] on a fresh pool issue exactly these offsets,
/// since each call returns `[offset, offset + size)` and advances the
/// counter by `size`.
pub open spec fn issued_start(sizes: Seq<usize>, i: int) -> int {
    total_demand(sizes, i)
}

/// Where the `i`-th reservation of the sequence ends.
pub open spec fn issued_end(sizes: Seq<usize>, i: int) -> int {
    total_demand(sizes, i + 1)
}

/// Demand only grows along the sequence.
pub proof fn lemma_total_demand_monotone(sizes: Seq<usize>, i: int, j: int)
    requires
        0 <= i <= j,
    ensures
        total_demand(sizes, i) <= total_demand(sizes, j),
    decreases j - i,
{
    if i < j {
        lemma_total_demand_monotone(sizes, i, j - 1);
    }
}

/// There are no gaps: every byte below the total demand falls in some
/// issued range — together with [`lemma_issued_ranges_tile`], the issued
/// ranges' union covers `[0, total demand)` exactly.
pub proof fn lemma_issued_ranges_cover(sizes: Seq<usize>, n: int, x: int)
    requires
        0 <= n,
        0 <= x < total_demand(sizes, n),
    ensures
        exists|i: int|
            0 <= i < n && #[trigger] issued_start(sizes, i) <= x < issued_end(sizes, i),
    decreases n,
{
    if x >= total_demand(sizes, n - 1) {
        assert(issued_start(sizes, n - 1) <= x < issued_end(sizes, n - 1));
    } else {
        lemma_issued_ranges_cover(sizes, n - 1, x);
    }
}

/// Concurrent reservations are linearizable, and in the linearization the
/// arena wastes nothing: for any sequence of reservations whose total
/// demand fits the pool, the issued ranges are pairwise non-overlapping —
/// each ends no later than the next begins — and they all fit the pool.
/// [`lemma_issued_ranges_cover`] adds that their union has no gaps.
pub proof fn lemma_issued_ranges_tile(sizes: Seq<usize>, pool_size: int)
    requires
        total_demand(sizes, sizes.len() as int) <= pool_size,
    ensures
        forall|i: int, j: int|
            0 <= i < j < sizes.len() ==> issued_end(sizes, i) <= issued_start(sizes, j),
        forall|i: int|
            0 <= i < sizes.len() ==> 0 <= #[trigger] issued_start(sizes, i) <= issued_end(sizes, i)
                <= total_demand(sizes, sizes.len() as int) <= pool_size,
{
    let n = sizes.len() as int;
    assert forall|i: int, j: int| 0 <= i < j < n implies issued_end(sizes, i) <= issued_start(
        sizes,
        j,
    ) by {
        lemma_total_demand_monotone(sizes, i + 1, j);
    }
    assert forall|i: int| 0 <= i < n implies 0 <= #[trigger] issued_start(sizes, i) <= issued_end(
        sizes,
        i,
    ) <= total_demand(sizes, n) <= pool_size by {
        lemma_total_demand_monotone(sizes, 0, i);
        lemma_total_demand_monotone(sizes, i + 1, n);
    }
}

} // verus!
