//! The declarative operation registry.  For each owner kind, the framework
//! keeps one table of binding descriptors and, beside it, one cache slot
//! per descriptor.  One generic dispatch engine serves every operation: it
//! reads a descriptor and its slot and produces the call plan for the
//! runtime, so no per-operation dispatch code exists anywhere.

use vstd::prelude::*;

use crate::resolver::BindingDescriptor;
use crate::resolver::CacheSlot;
use crate::resolver::CallPlan;
use crate::resolver::ResolverResult;
use crate::resolver::slot_after;
use crate::resolver::slot_wf;
use crate::resolver::trampoline_target;

verus! {

/// The declared operations of one owner kind, each with its resolution
/// slot.  Descriptors are laid down at configuration time; the slots are
/// the only mutable state.
pub struct BindingRegistry {
    pub descriptors: Vec<BindingDescriptor>,
    pub slots: Vec<CacheSlot>,
}

impl BindingRegistry {
    /// One slot per descriptor, and every slot well-formed.
    pub open spec fn wf(self) -> bool {
        &&& self.slots.len() == self.descriptors.len()
        &&& forall|i: int| 0 <= i < self.slots.len() ==> slot_wf(#[trigger] self.slots[i])
    }

    /// An empty registry.
    pub fn new() -> (r: Self)
        ensures
            r.wf(),
            r.slots@ =~= Seq::<CacheSlot>::empty(),
            r.descriptors@ =~= Seq::<BindingDescriptor>::empty(),
    {
        BindingRegistry { descriptors: Vec::new(), slots: Vec::new() }
    }

    /// Declares one operation, appending it to the table with a fresh,
    /// unsettled slot, and returns its index.
    pub fn declare(&mut self, desc: BindingDescriptor) -> (i: usize)
        requires
            old(self).wf(),
        ensures
            final(self).wf(),
            i == old(self).slots@.len(),
            final(self).descriptors@ == old(self).descriptors@.push(desc),
            final(self).slots@ == old(self).slots@.push(CacheSlot { resolved: false, pointer: 0 }),
    {
        let i = self.slots.len();
        self.descriptors.push(desc);
        self.slots.push(CacheSlot::new());
        i
    }

    /// How many operations are declared.
    pub fn op_count(&self) -> (n: usize)
        ensures
            n == self.slots@.len(),
    {
        self.slots.len()
    }

    /// The current state of one operation's slot.
    pub fn slot(&self, i: usize) -> (s: CacheSlot)
        requires
            i < self.slots@.len(),
        ensures
            s == self.slots@[i as int],
    {
        self.slots[i]
    }

    /// Feeds one strategy answer into one operation's slot, under the
    /// caching rule.
    pub fn resolve_op(&mut self, i: usize, r: ResolverResult)
        requires
            old(self).wf(),
            i < old(self).slots@.len(),
        ensures
            final(self).wf(),
            final(self).slots@ == old(self).slots@.update(i as int, slot_after(old(self).slots@[i as int], r)),
            final(self).descriptors@ == old(self).descriptors@,
    {
        let mut s = self.slots[i];
        s.resolve_with(r);
        self.slots[i] = s;
    }

    /// Writes a candidate pointer into an unsettled slot without settling
    /// it, bypassing the caching rule.  Used to memoize the procedure-table
    /// accessor's own pointer, which standard resolution cannot produce
    /// without recursing through the accessor itself.
    pub fn set_pointer(&mut self, i: usize, pointer: u64)
        requires
            old(self).wf(),
            i < old(self).slots@.len(),
            old(self).slots@[i as int].pointer == 0,
            pointer != 0,
        ensures
            final(self).wf(),
            final(self).slots@ == old(self).slots@.update(i as int, CacheSlot { resolved: false, pointer }),
            final(self).descriptors@ == old(self).descriptors@,
    {
        self.slots[i] = CacheSlot { resolved: false, pointer };
    }

    /// Marks one slot settled on its current candidate pointer; the
    /// candidate must be callable.
    pub fn force_resolved(&mut self, i: usize)
        requires
            old(self).wf(),
            i < old(self).slots@.len(),
            old(self).slots@[i as int].pointer != 0,
        ensures
            final(self).wf(),
            final(self).slots@ == old(self).slots@.update(
                i as int,
                CacheSlot { resolved: true, pointer: old(self).slots@[i as int].pointer },
            ),
            final(self).descriptors@ == old(self).descriptors@,
    {
        let mut s = self.slots[i];
        s.force_resolved();
        self.slots[i] = s;
    }

    /// Unsettles one slot, keeping its candidate pointer.
    pub fn clear_resolved(&mut self, i: usize)
        requires
            old(self).wf(),
            i < old(self).slots@.len(),
        ensures
            final(self).wf(),
            final(self).slots@ == old(self).slots@.update(
                i as int,
                CacheSlot { resolved: false, pointer: old(self).slots@[i as int].pointer },
            ),
            final(self).descriptors@ == old(self).descriptors@,
    {
        let mut s = self.slots[i];
        s.clear_resolved();
        self.slots[i] = s;
    }

    /// The aggregate resolution: feeds one strategy answer into every
    /// declared operation's slot, in declaration order.  Run right after
    /// the strategy transition to pre-warm an owner kind, so that later
    /// concurrent use finds every slot settled and race-free.
    pub fn resolve_all(&mut self, results: &Vec<ResolverResult>)
        requires
            old(self).wf(),
            results@.len() == old(self).slots@.len(),
        ensures
            final(self).wf(),
            final(self).slots@.len() == old(self).slots@.len(),
            forall|i: int| 0 <= i < old(self).slots@.len()
                ==> final(self).slots@[i] == slot_after(old(self).slots@[i], results@[i]),
            final(self).descriptors@ == old(self).descriptors@,
    {
        let n = self.slots.len();
        let mut k: usize = 0;
        while k < n
            invariant
                self.wf(),
                n == self.slots@.len(),
                n == old(self).slots@.len(),
                results@.len() == n,
                k <= n,
                self.descriptors@ == old(self).descriptors@,
                forall|i: int| 0 <= i < k ==> self.slots@[i] == slot_after(old(self).slots@[i], results@[i]),
                forall|i: int| k <= i < n ==> self.slots@[i] == old(self).slots@[i],
            decreases n - k,
        {
            self.resolve_op(k, results[k]);
            k = k + 1;
        }
    }

    /// Whether every declared operation's slot is settled.
    pub fn all_resolved(&self) -> (r: bool)
        ensures
            r == (forall|i: int| 0 <= i < self.slots@.len() ==> (#[trigger] self.slots@[i]).resolved),
    {
        let n = self.slots.len();
        let mut k: usize = 0;
        while k < n
            invariant
                n == self.slots@.len(),
                k <= n,
                forall|i: int| 0 <= i < k ==> (#[trigger] self.slots@[i]).resolved,
            decreases n - k,
        {
            if !self.slots[k].resolved {
                return false;
            }
            k = k + 1;
        }
        true
    }

    /// The dispatch decision for one declared operation: requires the slot
    /// to be settled, and hands out its pointer with the declared receiver
    /// mutability.
    pub fn call_plan(&self, i: usize) -> (p: CallPlan)
        requires
            self.wf(),
            i < self.slots@.len(),
            self.slots@[i as int].resolved,
        ensures
            p.pointer == self.slots@[i as int].pointer,
            p.pointer != 0,
            p.is_const == self.descriptors@[i as int].is_const,
    {
        let desc = &self.descriptors[i];
        let slot = &self.slots[i];
        trampoline_target(desc, slot)
    }
}

} // verus!
