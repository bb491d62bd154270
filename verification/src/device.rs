//! The root device and the bootstrap of the binding framework around it.
//!
//! One [`DriverContext`] owns what the framework otherwise scatters across
//! process-wide state: the resolution-strategy state machine, the root
//! device object, and the device's operation registry.  Its methods verify
//! the delicate part of bringing the driver up: the device's own
//! `initialize` and procedure-table accessor must be callable *before* any
//! trusted resolution strategy exists, so their slots are forced settled
//! for exactly the duration of the initialize call and unsettled again
//! right after, and the strategy switches to active exactly when the call
//! reports success.
//!
//! The foreign calls happen outside: the runtime asks [`plan_lookup`] which
//! service to consult, performs the call, and feeds the pointer back
//! through [`apply_lookup`].
//!
//! [`plan_lookup`]: DriverContext::plan_lookup
//! [`apply_lookup`]: DriverContext::apply_lookup

use vstd::prelude::*;

use crate::handle::HandleKind;
use crate::handle::OpaqueHandle;
use crate::registry::BindingRegistry;
use crate::resolver::BindingDescriptor;
use crate::resolver::CacheSlot;
use crate::resolver::LookupRoute;
use crate::resolver::ResolverContext;
use crate::resolver::ResolverResult;
use crate::resolver::ValueKind;
use crate::resolver::slot_after;

verus! {

/// The explicit context that owns the resolution state machine, the root
/// device object, and the device's operation registry.
pub struct DriverContext {
    pub resolver: ResolverContext,
    pub device: OpaqueHandle,
    pub device_ops: BindingRegistry,
    /// Index of the device's `initialize` operation in `device_ops`.
    pub init_op: usize,
    /// Index of the device's procedure-table accessor in `device_ops`.
    pub accessor_op: usize,
}

impl DriverContext {
    /// The context's invariant: the two bootstrap operations are distinct
    /// entries of a well-formed registry, the device object is of device
    /// kind, and the strategy is active exactly when the device is
    /// initialized.
    pub open spec fn wf(self) -> bool {
        &&& self.device_ops.wf()
        &&& self.init_op < self.device_ops.slots@.len()
        &&& self.accessor_op < self.device_ops.slots@.len()
        &&& self.init_op != self.accessor_op
        &&& self.device.kind is Device
        &&& (self.resolver.mode is Active <==> self.device.state is Initialized)
    }

    /// The accessor operation's current slot.
    pub open spec fn accessor_slot(self) -> CacheSlot {
        self.device_ops.slots@[self.accessor_op as int]
    }

    /// A fresh context: bootstrap mode, an untouched device object, and a
    /// registry declaring the two operations the bootstrap needs — the
    /// device's `initialize` (exclusive receiver) and its procedure-table
    /// accessor (shared receiver).  Further device operations are
    /// declarative instantiations of the same framework and may be
    /// appended to the registry by the caller.
    pub fn new() -> (c: Self)
        ensures
            c.wf(),
            c.resolver.mode is Bootstrap,
            c.device.state is Created,
            c.device_ops.slots@.len() == 2,
            c.init_op == 0,
            c.accessor_op == 1,
            c.device_ops.slots@[0] == (CacheSlot { resolved: false, pointer: 0 }),
            c.device_ops.slots@[1] == (CacheSlot { resolved: false, pointer: 0 }),
            c.device_ops.descriptors@[0].name@ == "nvnDeviceInitialize"@,
            !c.device_ops.descriptors@[0].is_const,
            c.device_ops.descriptors@[1].name@ == "nvnDeviceGetProcAddress"@,
            c.device_ops.descriptors@[1].is_const,
    {
        let mut ops = BindingRegistry::new();
        let init_op = ops.declare(BindingDescriptor {
            name: "nvnDeviceInitialize",
            owner: HandleKind::Device,
            is_const: false,
            params: vec![ValueKind::Pointer],
            ret: ValueKind::Boolean,
        });
        let accessor_op = ops.declare(BindingDescriptor {
            name: "nvnDeviceGetProcAddress",
            owner: HandleKind::Device,
            is_const: true,
            params: vec![ValueKind::Pointer],
            ret: ValueKind::Pointer,
        });
        DriverContext {
            resolver: ResolverContext::new(),
            device: OpaqueHandle::new(HandleKind::Device),
            device_ops: ops,
            init_op,
            accessor_op,
        }
    }

    /// Plans the resolution of the operation at index `i`: which external
    /// service the runtime must consult, under the strategy now in force.
    /// The accessor's own lookup is special-cased to avoid recursing
    /// through the accessor.
    pub fn plan_lookup(&self, i: usize) -> (r: LookupRoute)
        requires
            self.wf(),
            i < self.device_ops.slots@.len(),
        ensures
            self.resolver.mode is Bootstrap && self.accessor_slot().pointer != 0
                ==> r == (LookupRoute::AccessorNullReceiver { pointer: self.accessor_slot().pointer }),
            self.resolver.mode is Bootstrap && self.accessor_slot().pointer == 0
                ==> r == LookupRoute::BootstrapLoader,
            self.resolver.mode is Active && i == self.accessor_op && self.accessor_slot().pointer == 0
                ==> r == LookupRoute::MemoizeAccessor,
            self.resolver.mode is Active && i == self.accessor_op && self.accessor_slot().pointer != 0
                ==> r == (LookupRoute::AccessorOnDevice { pointer: self.accessor_slot().pointer }),
            self.resolver.mode is Active && i != self.accessor_op
                ==> r == LookupRoute::DeviceAccessor,
    {
        let accessor = self.device_ops.slot(self.accessor_op);
        self.resolver.route(&accessor, i == self.accessor_op)
    }

    /// Feeds the raw pointer a planned lookup produced back into the
    /// operation's slot.  The answer is graded by the strategy in force —
    /// trusted exactly in active mode — and cached under the caching rule:
    /// in bootstrap mode the slot therefore never settles.
    pub fn apply_lookup(&mut self, i: usize, pointer: u64)
        requires
            old(self).wf(),
            i < old(self).device_ops.slots@.len(),
        ensures
            final(self).wf(),
            final(self).device_ops.slots@ == old(self).device_ops.slots@.update(
                i as int,
                slot_after(
                    old(self).device_ops.slots@[i as int],
                    ResolverResult { pointer, trusted: old(self).resolver.mode is Active },
                ),
            ),
            final(self).device_ops.descriptors@ == old(self).device_ops.descriptors@,
            final(self).resolver == old(self).resolver,
            final(self).device == old(self).device,
            final(self).init_op == old(self).init_op,
            final(self).accessor_op == old(self).accessor_op,
    {
        let graded = self.resolver.classify(pointer);
        self.device_ops.resolve_op(i, graded);
    }

    /// Memoizes the accessor's own pointer, fetched from the bootstrap
    /// loader, without settling its slot — the step the
    /// [`LookupRoute::MemoizeAccessor`] route asks for.
    pub fn memoize_accessor(&mut self, pointer: u64)
        requires
            old(self).wf(),
            old(self).accessor_slot().pointer == 0,
            pointer != 0,
        ensures
            final(self).wf(),
            final(self).device_ops.slots@ == old(self).device_ops.slots@.update(
                old(self).accessor_op as int,
                CacheSlot { resolved: false, pointer },
            ),
            final(self).device_ops.descriptors@ == old(self).device_ops.descriptors@,
            final(self).resolver == old(self).resolver,
            final(self).device == old(self).device,
            final(self).init_op == old(self).init_op,
            final(self).accessor_op == old(self).accessor_op,
    {
        self.device_ops.set_pointer(self.accessor_op, pointer);
    }

    /// Opens the root-device initialize sequence.  Both bootstrap
    /// operations must already hold candidate pointers (from provisional
    /// lookups); their slots are forced settled so that the trampoline
    /// finds ready pointers for exactly the two operations the bootstrap
    /// needs.
    pub fn begin_root_init(&mut self)
        requires
            old(self).wf(),
            old(self).resolver.mode is Bootstrap,
            old(self).device_ops.slots@[old(self).init_op as int].pointer != 0,
            old(self).device_ops.slots@[old(self).accessor_op as int].pointer != 0,
        ensures
            final(self).wf(),
            final(self).device_ops.slots@ == old(self).device_ops.slots@
                .update(old(self).init_op as int, CacheSlot {
                    resolved: true,
                    pointer: old(self).device_ops.slots@[old(self).init_op as int].pointer,
                })
                .update(old(self).accessor_op as int, CacheSlot {
                    resolved: true,
                    pointer: old(self).device_ops.slots@[old(self).accessor_op as int].pointer,
                }),
            final(self).device_ops.descriptors@ == old(self).device_ops.descriptors@,
            final(self).resolver == old(self).resolver,
            final(self).device == old(self).device,
            final(self).init_op == old(self).init_op,
            final(self).accessor_op == old(self).accessor_op,
    {
        self.device_ops.force_resolved(self.init_op);
        self.device_ops.force_resolved(self.accessor_op);
    }

    /// Closes the root-device initialize sequence with the outcome of the
    /// device's foreign `initialize` call.  Both forced slots are
    /// unsettled again — normal resolution recurs thereafter under the
    /// correct strategy — and on success, and only then, the strategy
    /// switches to active, once and irreversibly.
    pub fn finish_root_init(&mut self, success: bool)
        requires
            old(self).wf(),
            old(self).resolver.mode is Bootstrap,
            old(self).device.state is Created,
        ensures
            final(self).wf(),
            final(self).device_ops.slots@ == old(self).device_ops.slots@
                .update(old(self).init_op as int, CacheSlot {
                    resolved: false,
                    pointer: old(self).device_ops.slots@[old(self).init_op as int].pointer,
                })
                .update(old(self).accessor_op as int, CacheSlot {
                    resolved: false,
                    pointer: old(self).device_ops.slots@[old(self).accessor_op as int].pointer,
                }),
            final(self).device_ops.descriptors@ == old(self).device_ops.descriptors@,
            success ==> final(self).resolver.mode is Active && final(self).device.state is Initialized,
            !success ==> final(self).resolver.mode is Bootstrap && final(self).device.state is Created,
            final(self).device.kind == old(self).device.kind,
            final(self).init_op == old(self).init_op,
            final(self).accessor_op == old(self).accessor_op,
    {
        self.device.initialize(success);
        if success {
            self.resolver.activate();
        }
        self.device_ops.clear_resolved(self.init_op);
        self.device_ops.clear_resolved(self.accessor_op);
    }
}

} // verus!
