use nvn::handle::HandleKind;
use nvn::handle::HandleState;
use nvn::handle::InitializeError;
use nvn::handle::OpaqueHandle;
use nvn::registry::BindingRegistry;
use nvn::resolver::BindingDescriptor;
use nvn::resolver::CacheSlot;
use nvn::resolver::LookupRoute;
use nvn::resolver::ResolverMode;
use nvn::resolver::ResolverResult;
use nvn::resolver::ValueKind;
use nvn::device::DriverContext;

fn untrusted(pointer: u64) -> ResolverResult {
    ResolverResult { pointer, trusted: false }
}

fn trusted(pointer: u64) -> ResolverResult {
    ResolverResult { pointer, trusted: true }
}

#[test]
fn trusted_resolution_is_idempotent() {
    let mut once = CacheSlot::new();
    once.resolve_with(trusted(0x40));

    let mut twice = CacheSlot::new();
    twice.resolve_with(trusted(0x40));
    twice.resolve_with(trusted(0x999));

    assert!(once.resolved);
    assert_eq!(once.pointer, 0x40);
    assert_eq!(once, twice);
}

#[test]
fn untrusted_result_is_never_cached() {
    let mut slot = CacheSlot::new();
    slot.resolve_with(untrusted(0x1234));
    assert!(!slot.resolved);

    // The candidate pointer is remembered for bootstrap use, but the slot
    // stays eligible for a proper resolution.
    assert_eq!(slot.pointer, 0x1234);
    slot.resolve_with(trusted(0x5678));
    assert!(slot.resolved);
    assert_eq!(slot.pointer, 0x5678);
}

#[test]
fn trusted_null_stays_unresolved() {
    let mut slot = CacheSlot::new();
    slot.resolve_with(trusted(0));
    assert!(!slot.resolved);
    assert_eq!(slot.pointer, 0);

    // The driver's table may populate later: a retry may still settle it.
    slot.resolve_with(trusted(0x77));
    assert!(slot.resolved);
    assert_eq!(slot.pointer, 0x77);
}

#[test]
fn force_and_clear_bypass_the_caching_rule() {
    let mut slot = CacheSlot::new();
    slot.resolve_with(untrusted(0x20));
    assert!(!slot.resolved);

    slot.force_resolved();
    assert!(slot.resolved);
    assert_eq!(slot.pointer, 0x20);

    slot.clear_resolved();
    assert!(!slot.resolved);
    assert_eq!(slot.pointer, 0x20);
}

fn descriptor(name: &'static str, is_const: bool) -> BindingDescriptor {
    BindingDescriptor {
        name,
        owner: HandleKind::Queue,
        is_const,
        params: vec![ValueKind::Uint32],
        ret: ValueKind::Unit,
    }
}

#[test]
fn registry_resolve_all_prewarms_every_slot() {
    let mut ops = BindingRegistry::new();
    let a = ops.declare(descriptor("nvnQueueInitialize", false));
    let b = ops.declare(descriptor("nvnQueueFlush", false));
    let c = ops.declare(descriptor("nvnQueueFinalize", false));
    assert_eq!((a, b, c), (0, 1, 2));
    assert_eq!(ops.op_count(), 3);
    assert!(!ops.all_resolved());

    let results = vec![trusted(0x100), trusted(0x200), trusted(0x300)];
    ops.resolve_all(&results);
    assert!(ops.all_resolved());
    assert_eq!(ops.slot(0).pointer, 0x100);
    assert_eq!(ops.slot(1).pointer, 0x200);
    assert_eq!(ops.slot(2).pointer, 0x300);

    let plan = ops.call_plan(1);
    assert_eq!(plan.pointer, 0x200);
    assert!(!plan.is_const);
}

#[test]
fn registry_resolve_all_with_a_miss_leaves_that_slot_open() {
    let mut ops = BindingRegistry::new();
    ops.declare(descriptor("nvnQueueInitialize", false));
    ops.declare(descriptor("nvnQueueGetError", true));

    let results = vec![trusted(0x100), trusted(0)];
    ops.resolve_all(&results);
    assert!(!ops.all_resolved());
    assert!(ops.slot(0).resolved);
    assert!(!ops.slot(1).resolved);
}

#[test]
fn bootstrap_lookups_route_through_the_loader_and_stay_uncached() {
    let mut ctx = DriverContext::new();
    assert_eq!(ctx.resolver.mode, ResolverMode::Bootstrap);

    // No accessor candidate yet: straight to the bootstrap loader.
    assert_eq!(ctx.plan_lookup(ctx.init_op), LookupRoute::BootstrapLoader);
    ctx.apply_lookup(ctx.init_op, 0x1000);
    assert!(!ctx.device_ops.slot(ctx.init_op).resolved);
    assert_eq!(ctx.device_ops.slot(ctx.init_op).pointer, 0x1000);

    // Resolve the accessor the same way; its candidate is remembered.
    ctx.apply_lookup(ctx.accessor_op, 0x2000);
    assert!(!ctx.device_ops.slot(ctx.accessor_op).resolved);

    // With a candidate accessor on hand, bootstrap lookups call it with a
    // null receiver instead of the loader.
    assert_eq!(
        ctx.plan_lookup(ctx.init_op),
        LookupRoute::AccessorNullReceiver { pointer: 0x2000 }
    );
}

#[test]
fn root_init_forces_then_clears_the_two_bootstrap_slots() {
    let mut ctx = DriverContext::new();
    ctx.apply_lookup(ctx.init_op, 0x1000);
    ctx.apply_lookup(ctx.accessor_op, 0x2000);

    ctx.begin_root_init();
    assert!(ctx.device_ops.slot(ctx.init_op).resolved);
    assert!(ctx.device_ops.slot(ctx.accessor_op).resolved);
    let plan = ctx.device_ops.call_plan(ctx.init_op);
    assert_eq!(plan.pointer, 0x1000);
    assert!(!plan.is_const);

    ctx.finish_root_init(true);
    assert_eq!(ctx.resolver.mode, ResolverMode::Active);
    assert_eq!(ctx.device.state, HandleState::Initialized);
    assert!(!ctx.device_ops.slot(ctx.init_op).resolved);
    assert!(!ctx.device_ops.slot(ctx.accessor_op).resolved);

    // After the switch, ordinary lookups go through the device's accessor
    // and non-null answers are cached.
    assert_eq!(ctx.plan_lookup(ctx.init_op), LookupRoute::DeviceAccessor);
    ctx.apply_lookup(ctx.init_op, 0x1000);
    assert!(ctx.device_ops.slot(ctx.init_op).resolved);
}

#[test]
fn failed_root_init_keeps_the_bootstrap_strategy() {
    let mut ctx = DriverContext::new();
    ctx.apply_lookup(ctx.init_op, 0x1000);
    ctx.apply_lookup(ctx.accessor_op, 0x2000);

    ctx.begin_root_init();
    ctx.finish_root_init(false);
    assert_eq!(ctx.resolver.mode, ResolverMode::Bootstrap);
    assert_eq!(ctx.device.state, HandleState::Created);
    assert!(!ctx.device_ops.slot(ctx.init_op).resolved);
}

#[test]
fn accessor_self_lookup_is_memoized_not_cached() {
    let mut ctx = DriverContext::new();
    ctx.finish_root_init(true);
    assert_eq!(ctx.resolver.mode, ResolverMode::Active);

    // The accessor's own name cannot be resolved through the accessor:
    // memoize its pointer from the bootstrap loader first.
    assert_eq!(ctx.plan_lookup(ctx.accessor_op), LookupRoute::MemoizeAccessor);
    ctx.memoize_accessor(0x2000);
    assert!(!ctx.device_ops.slot(ctx.accessor_op).resolved);

    // Thereafter the memoized pointer is invoked on the live device, and
    // its trusted answer settles the slot as usual.
    assert_eq!(
        ctx.plan_lookup(ctx.accessor_op),
        LookupRoute::AccessorOnDevice { pointer: 0x2000 }
    );
    ctx.apply_lookup(ctx.accessor_op, 0x2000);
    assert!(ctx.device_ops.slot(ctx.accessor_op).resolved);
    assert_eq!(ctx.device_ops.slot(ctx.accessor_op).pointer, 0x2000);
}

#[test]
fn handle_lifecycle_and_declared_sizes() {
    let mut h = OpaqueHandle::new(HandleKind::Device);
    assert_eq!(h.state, HandleState::Created);
    h.initialize(false);
    assert_eq!(h.state, HandleState::Created);
    h.initialize(true);
    assert_eq!(h.state, HandleState::Initialized);
    h.finalize();
    assert_eq!(h.state, HandleState::Finalized);

    assert_eq!(HandleKind::Device.declared_size(), 0x3000);
    assert_eq!(HandleKind::Queue.declared_size(), 0x2000);
    assert_eq!(HandleKind::MemoryPool.declared_size(), 256);
    assert_eq!(HandleKind::CommandBuffer.declared_size(), 160);
    assert_eq!(HandleKind::Texture.declared_size(), 192);
    assert_eq!(HandleKind::MemoryPoolBuilder.declared_size(), 64);
}

#[test]
fn initialize_error_names_its_owner_kind() {
    let e = InitializeError { kind: HandleKind::MemoryPool };
    assert_eq!(e.describe(), "MemoryPool");
    let e = InitializeError { kind: HandleKind::CommandBuffer };
    assert_eq!(e.describe(), "CommandBuffer");
}
