//! The lazy procedure-binding framework: descriptors for foreign
//! operations, the per-operation resolution cache, the pluggable
//! resolution-strategy state machine, and the trampoline that dispatches
//! a declared operation through its settled pointer.
//!
//! The foreign lookup services themselves (the global bootstrap loader and
//! the live device's procedure-table accessor) run outside the library.  A
//! resolution is therefore a short exchange: the library plans which
//! service to consult ([`ResolverContext::route`]), the runtime performs
//! the call and hands back the raw pointer, and the library decides what of
//! it may be cached ([`slot_after`]).

use vstd::prelude::*;

use crate::handle::HandleKind;

verus! {

/// What a resolution strategy handed back for one name: a raw code pointer
/// (`0` for a miss) and a trust signal.  A trusted result comes from the
/// authoritative per-device procedure table and may be cached permanently;
/// an untrusted one comes from the provisional bootstrap loader and is good
/// for one call only.
#[derive(Debug, Clone, Copy, PartialEq, Eq, Structural)]
pub struct ResolverResult {
    pub pointer: u64,
    pub trusted: bool,
}

/// The mutable resolution state attached to one binding descriptor: the
/// candidate pointer last handed back by a strategy, and whether that
/// pointer is settled.  Once `resolved` is set the slot never consults a
/// strategy again.
#[derive(Debug, Clone, Copy, PartialEq, Eq, Structural)]
pub struct CacheSlot {
    pub resolved: bool,
    pub pointer: u64,
}

/// A slot never settles on a null pointer: `resolved` implies the cached
/// pointer is callable.
pub open spec fn slot_wf(s: CacheSlot) -> bool {
    s.resolved ==> s.pointer != 0
}

/// The caching rule, as one function of the old slot and the strategy's
/// answer.  A settled slot is left alone.  An unsettled slot records the
/// candidate pointer, and settles exactly when the answer is trusted and
/// non-null: a trusted null stays unsettled, eligible for retry (the
/// driver's table may populate later), and an untrusted answer never
/// settles the slot at all.
pub open spec fn slot_after(s: CacheSlot, r: ResolverResult) -> CacheSlot {
    if s.resolved {
        s
    } else {
        CacheSlot { pointer: r.pointer, resolved: r.trusted && r.pointer != 0 }
    }
}

impl CacheSlot {
    /// A fresh, unsettled slot with no candidate pointer.
    pub fn new() -> (s: Self)
        ensures
            !s.resolved,
            s.pointer == 0,
            slot_wf(s),
    {
        CacheSlot { resolved: false, pointer: 0 }
    }

    /// Feeds one strategy answer into the slot, following [`slot_after`].
    pub fn resolve_with(&mut self, r: ResolverResult)
        ensures
            *final(self) == slot_after(*old(self), r),
            slot_wf(*old(self)) ==> slot_wf(*final(self)),
    {
        if !self.resolved {
            self.pointer = r.pointer;
            self.resolved = r.trusted && r.pointer != 0;
        }
    }

    /// Marks the slot settled on its current candidate pointer, bypassing
    /// the caching rule.  Used only around the root device's own
    /// initialization, where the two bootstrap operations must look ready
    /// before a trusted strategy exists; calling through a null pointer
    /// would be fatal, so the candidate must be non-null.
    pub fn force_resolved(&mut self)
        requires
            old(self).pointer != 0,
        ensures
            final(self).pointer == old(self).pointer,
            final(self).resolved,
            slot_wf(*final(self)),
    {
        self.resolved = true;
    }

    /// Unsettles the slot, keeping the candidate pointer, so that normal
    /// resolution recurs under the strategy then in force.
    pub fn clear_resolved(&mut self)
        ensures
            final(self).pointer == old(self).pointer,
            !final(self).resolved,
            slot_wf(*final(self)),
    {
        self.resolved = false;
    }
}

/// Resolution is idempotent: once a trusted, non-null answer settles a
/// slot, every later resolution — whatever its answer — leaves the slot,
/// and in particular its cached pointer, exactly as the first one did.
pub proof fn lemma_trusted_resolution_idempotent(s: CacheSlot, first: ResolverResult, later: ResolverResult)
    requires
        first.trusted,
        first.pointer != 0,
    ensures
        slot_after(slot_after(s, first), later) == slot_after(s, first),
{
}

/// An untrusted answer is never observable in the cache after the
/// resolution returns: the slot remains unsettled, whatever pointer the
/// answer carried.
pub proof fn lemma_untrusted_never_cached(s: CacheSlot, r: ResolverResult)
    requires
        !s.resolved,
        !r.trusted,
    ensures
        !slot_after(s, r).resolved,
{
}

/// Which resolution strategy is in force.
#[derive(Debug, Clone, Copy, PartialEq, Eq, Structural)]
pub enum ResolverMode {
    /// Before the root device is initialized: lookups go through the
    /// external bootstrap loader (or an already-seen accessor pointer with
    /// a null receiver), and every answer is provisional.
    Bootstrap,
    /// After the root device's `initialize` has succeeded: lookups go
    /// through the live device's own procedure-table accessor and their
    /// answers are authoritative.
    Active,
}

/// Which external service one lookup must consult, and how.  The runtime
/// performs the call this value describes and hands the raw pointer back.
#[derive(Debug, Clone, Copy, PartialEq, Eq, Structural)]
pub enum LookupRoute {
    /// Call the external bootstrap loader with the name.
    BootstrapLoader,
    /// Call this candidate accessor pointer with a null receiver: the
    /// device is not initialized yet, but an earlier lookup already
    /// produced a candidate for the procedure-table accessor.
    AccessorNullReceiver { pointer: u64 },
    /// The lookup is for the procedure-table accessor's own name and no
    /// pointer for it has been memoized yet: call the bootstrap loader
    /// directly and memoize the answer, to avoid infinite recursion
    /// through the accessor.
    MemoizeAccessor,
    /// The lookup is for the procedure-table accessor's own name: call the
    /// memoized accessor pointer against the live device receiver.
    AccessorOnDevice { pointer: u64 },
    /// Route the lookup through the live device's procedure-table accessor
    /// method.
    DeviceAccessor,
}

/// The resolution-strategy state machine.  It starts in `Bootstrap`; the
/// transition to `Active` fires exactly once, immediately after the root
/// device's `initialize` returns success, and is irreversible for the
/// process.
#[derive(Debug, Clone, Copy, PartialEq, Eq, Structural)]
pub struct ResolverContext {
    pub mode: ResolverMode,
}

impl ResolverContext {
    /// A fresh context, in bootstrap mode.
    pub fn new() -> (c: Self)
        ensures
            c.mode is Bootstrap,
    {
        ResolverContext { mode: ResolverMode::Bootstrap }
    }

    /// Plans one lookup.  `accessor` is the cache slot of the device's
    /// procedure-table accessor — the one slot the strategies themselves
    /// read — and `is_accessor_name` says whether the name being looked up
    /// is that accessor's own.
    pub fn route(&self, accessor: &CacheSlot, is_accessor_name: bool) -> (r: LookupRoute)
        ensures
            self.mode is Bootstrap && accessor.pointer != 0 ==> r == (LookupRoute::AccessorNullReceiver { pointer: accessor.pointer }),
            self.mode is Bootstrap && accessor.pointer == 0 ==> r == LookupRoute::BootstrapLoader,
            self.mode is Active && is_accessor_name && accessor.pointer == 0 ==> r == LookupRoute::MemoizeAccessor,
            self.mode is Active && is_accessor_name && accessor.pointer != 0 ==> r == (LookupRoute::AccessorOnDevice { pointer: accessor.pointer }),
            self.mode is Active && !is_accessor_name ==> r == LookupRoute::DeviceAccessor,
    {
        match self.mode {
            ResolverMode::Bootstrap => {
                if accessor.pointer != 0 {
                    LookupRoute::AccessorNullReceiver { pointer: accessor.pointer }
                } else {
                    LookupRoute::BootstrapLoader
                }
            },
            ResolverMode::Active => {
                if is_accessor_name {
                    if accessor.pointer == 0 {
                        LookupRoute::MemoizeAccessor
                    } else {
                        LookupRoute::AccessorOnDevice { pointer: accessor.pointer }
                    }
                } else {
                    LookupRoute::DeviceAccessor
                }
            },
        }
    }

    /// Grades the raw pointer a lookup produced: answers are trusted
    /// exactly when the active strategy is in force, because only the live
    /// device's table is authoritative — the bootstrap loader may answer
    /// for a device table that does not exist yet.
    pub fn classify(&self, pointer: u64) -> (r: ResolverResult)
        ensures
            r.pointer == pointer,
            r.trusted == (self.mode is Active),
    {
        ResolverResult { pointer, trusted: matches!(self.mode, ResolverMode::Active) }
    }

    /// The one-shot transition to the active strategy, fired immediately
    /// after the root device's `initialize` reports success.
    pub fn activate(&mut self)
        requires
            old(self).mode is Bootstrap,
        ensures
            final(self).mode is Active,
    {
        self.mode = ResolverMode::Active;
    }
}

/// Before the root device is initialized, no lookup is cacheable: whatever
/// route the bootstrap strategy picks and whatever pointer comes back, the
/// graded answer is untrusted, so feeding it to any unsettled slot leaves
/// the slot unsettled.
pub proof fn lemma_bootstrap_lookups_never_cached(c: ResolverContext, s: CacheSlot, pointer: u64)
    requires
        c.mode is Bootstrap,
        !s.resolved,
    ensures
        !slot_after(s, ResolverResult { pointer, trusted: c.mode is Active }).resolved,
{
}

/// After the transition to the active strategy, a lookup that produces a
/// non-null pointer settles the slot on exactly that pointer.
pub proof fn lemma_active_lookups_cached(c: ResolverContext, s: CacheSlot, pointer: u64)
    requires
        c.mode is Active,
        !s.resolved,
        pointer != 0,
    ensures
        slot_after(s, ResolverResult { pointer, trusted: c.mode is Active }) == (CacheSlot { resolved: true, pointer }),
{
}

/// The static description of one foreign operation: its symbolic name, the
/// kind of object it belongs to, whether it takes the object by shared
/// (`const`) or exclusive receiver, and its parameter and return shape.
/// Descriptors are defined at configuration time and never change.
pub struct BindingDescriptor {
    pub name: &'static str,
    pub owner: HandleKind,
    pub is_const: bool,
    pub params: Vec<ValueKind>,
    pub ret: ValueKind,
}

/// The shape of one foreign parameter or return value, as far as the
/// binding layer needs to reconstruct a signature.
#[derive(Debug, Clone, Copy, PartialEq, Eq, Structural)]
pub enum ValueKind {
    Unit,
    Boolean,
    Int32,
    Uint32,
    Uint64,
    Size,
    Pointer,
    Handle,
}

/// What the trampoline hands the runtime for one invocation: the settled
/// code pointer and the receiver mutability the signature is reconstructed
/// with.  The runtime reinterprets the pointer as the declared foreign
/// signature and calls it, forwarding receiver and arguments.
#[derive(Debug, Clone, Copy, PartialEq, Eq, Structural)]
pub struct CallPlan {
    pub pointer: u64,
    pub is_const: bool,
}

/// The trampoline's dispatch decision for one declared operation.  Invoking
/// through an unsettled slot would call a null or garbage pointer — a fatal
/// precondition violation, not a recoverable error — so the slot is
/// required to be settled: callers are expected to have run an aggregate
/// resolution on the owning object before first use.
pub fn trampoline_target(desc: &BindingDescriptor, slot: &CacheSlot) -> (p: CallPlan)
    requires
        slot_wf(*slot),
        slot.resolved,
    ensures
        p.pointer == slot.pointer,
        p.pointer != 0,
        p.is_const == desc.is_const,
{
    CallPlan { pointer: slot.pointer, is_const: desc.is_const }
}

} // verus!
