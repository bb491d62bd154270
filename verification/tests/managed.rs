use nvn::cmdbuf::CommandBuffer;
use nvn::cmdbuf::RecordState;
use nvn::flags::MemoryPoolFlags;
use nvn::handle::CommandHandle;
use nvn::handle::HandleKind;
use nvn::pool::storage_alignment;
use nvn::pool::ByteRange;
use nvn::pool::CpuRegion;
use nvn::pool::FlushRequest;
use nvn::pool::MemPool;
use nvn::pool::MemPoolError;
use nvn::storage::FreeRequest;
use nvn::storage::Storage;

fn cached_flags() -> MemoryPoolFlags {
    let mut f = MemoryPoolFlags::none();
    f.cpu_cached = true;
    f.gpu_cached = true;
    f
}

#[test]
fn pool_scenario_two_fits_then_out_of_memory() {
    // 4096 bytes of owned, page-aligned storage, CPU-cached/GPU-cached.
    let addr: usize = 16 * storage_alignment(None);
    let (builder, freed) = MemPool::new()
        .with_device(0xD00D)
        .with_flags(cached_flags())
        .make_storage(addr, 4096);
    assert_eq!(freed, None);

    let mut pool = builder.finish(true).ok().unwrap();
    assert_eq!(pool.get_size(), 4096);

    let first = pool.reserve_mem(1024).ok().unwrap();
    assert_eq!(first.range(), ByteRange { start: 0, end: 1024 });

    let second = pool.reserve_mem(2048).ok().unwrap();
    assert_eq!(second.range(), ByteRange { start: 1024, end: 3072 });

    // 1024 bytes remain: a third reservation of 2048 must fail.
    let third = pool.reserve_mem(2048);
    assert!(matches!(third, Err(MemPoolError::OutOfMemory)));
}

#[test]
fn failed_reservation_leaves_the_offset_unchanged() {
    let (builder, _) = MemPool::new().with_storage(0x8000, 100);
    let mut pool = builder.finish(true).ok().unwrap();
    pool.reserve_mem(60).ok().unwrap();
    assert_eq!(pool.offset, 60);

    let r = pool.reserve_mem(41);
    assert!(matches!(r, Err(MemPoolError::OutOfMemory)));
    assert_eq!(pool.offset, 60);

    // An exact fit still succeeds afterwards.
    let m = pool.reserve_mem(40).ok().unwrap();
    assert_eq!(m.range(), ByteRange { start: 60, end: 100 });
    assert_eq!(pool.offset, 100);
}

#[test]
fn pool_create_failure_returns_builder_and_typed_error() {
    let (builder, _) = MemPool::new().with_storage(0x8000, 4096);
    match builder.create(false) {
        Ok(_) => panic!("create must fail when the driver reports failure"),
        Err((back, e)) => {
            assert_eq!(back, builder);
            assert_eq!(e.kind, HandleKind::MemoryPool);
            assert_eq!(e.describe(), "MemoryPool");
        },
    }
}

#[test]
fn shared_storage_is_never_freed() {
    // A borrowed buffer survives replacement...
    let (builder, _) = MemPool::new().with_shared_storage(0xAAAA, 4096);
    let (builder, freed) = builder.with_storage(0xBBBB, 4096);
    assert_eq!(freed, None);

    // ...and a borrowed buffer survives teardown.
    let (builder, freed) = builder.with_shared_storage(0xCCCC, 4096);
    assert_eq!(freed, Some(FreeRequest { addr: 0xBBBB }));
    assert_eq!(builder.teardown(), None);
}

#[test]
fn owned_storage_is_freed_exactly_once() {
    // Replaced: freed by the replacement, not again by teardown.
    let (builder, _) = MemPool::new().with_storage(0x1111, 4096);
    let (builder, freed) = builder.with_storage(0x2222, 4096);
    assert_eq!(freed, Some(FreeRequest { addr: 0x1111 }));

    // Dropped unused: freed by teardown.
    assert_eq!(builder.teardown(), Some(FreeRequest { addr: 0x2222 }));
}

#[test]
fn pool_teardown_frees_only_owned_backing() {
    let (builder, _) = MemPool::new().with_storage(0x3333, 64);
    let pool = builder.finish(true).ok().unwrap();
    assert_eq!(pool.teardown(), Some(FreeRequest { addr: 0x3333 }));

    let (builder, _) = MemPool::new().with_shared_storage(0x4444, 64);
    let pool = builder.finish(true).ok().unwrap();
    assert_eq!(pool.teardown(), None);
}

#[test]
fn cpu_access_is_gated_by_flags_and_mapping() {
    let mut no_access = MemoryPoolFlags::none();
    no_access.cpu_no_access = true;
    let (builder, _) = MemPool::new().with_flags(no_access).with_storage(0x5000, 256);
    let mut pool = builder.finish(true).ok().unwrap();
    let m = pool.reserve_mem(16).ok().unwrap();
    assert!(matches!(m.cpu(0x9000), Err(MemPoolError::NoCPUAccess)));

    let (builder, _) = MemPool::new().with_flags(cached_flags()).with_storage(0x5000, 256);
    let mut pool = builder.finish(true).ok().unwrap();
    let m = pool.reserve_mem(16).ok().unwrap();
    assert!(matches!(m.cpu(0), Err(MemPoolError::NullMemory)));
    assert_eq!(m.cpu(0x9000), Ok(CpuRegion { addr: 0x9000, len: 256 }));
    assert_eq!(m.cpu_unchecked(0x9000), CpuRegion { addr: 0x9000, len: 256 });
}

#[test]
fn releasing_a_range_flushes_exactly_its_own_bytes() {
    let (builder, _) = MemPool::new().with_storage(0x5000, 4096);
    let mut pool = builder.finish(true).ok().unwrap();
    pool.reserve_mem(512).ok().unwrap().release();

    let m = pool.reserve_mem(128).ok().unwrap();
    let flush = m.release();
    assert_eq!(flush, FlushRequest { start: 512, end: 640 });

    // An untouched range flushes all the same, and into_range carries the
    // same flush alongside the range it keeps.
    let m = pool.reserve_mem(8).ok().unwrap();
    let (range, flush) = m.into_range();
    assert_eq!(range, ByteRange { start: 640, end: 648 });
    assert_eq!(flush, FlushRequest { start: 640, end: 648 });
}

#[test]
fn storage_alignment_defaults_to_one_page() {
    assert_eq!(storage_alignment(None), 0x1000);
    assert_eq!(storage_alignment(Some(64)), 64);
}

#[test]
fn flag_bits_pack_into_their_declared_positions() {
    let mut f = MemoryPoolFlags::none();
    assert_eq!(f.to_bits(), 0);
    f.cpu_no_access = true;
    assert_eq!(f.to_bits(), 0x1);
    f.cpu_no_access = false;
    f.cpu_cached = true;
    f.gpu_cached = true;
    assert_eq!(f.to_bits(), 0x24);
    f.is_virtual = true;
    assert_eq!(f.to_bits(), 0x224);
}

#[test]
fn flag_bits_round_trip_and_ignore_high_bits() {
    let mut f = MemoryPoolFlags::none();
    f.cpu_uncached = true;
    f.gpu_no_access = true;
    f.shader_code = true;
    f.is_physical = true;
    assert_eq!(MemoryPoolFlags::from_bits(f.to_bits()), f);

    // Bits beyond the ten declared fields are ignored.
    assert_eq!(MemoryPoolFlags::from_bits(0xFFFF_FC00), MemoryPoolFlags::none());
    assert_eq!(MemoryPoolFlags::from_bits(0xFFFF_FFFF).to_bits(), 0x3FF);
}

#[test]
fn command_buffer_scenario_records_one_handle() {
    // A 256-byte command range inside a 4096-byte pool, and a 1024-byte
    // owned control buffer.
    let (pool_builder, _) = MemPool::new().with_storage(0x10000, 4096);
    let pool = pool_builder.finish(true).ok().unwrap();
    let pool_addr: u64 = 0x10000;

    let (builder, freed) = CommandBuffer::new()
        .with_device(0xD00D)
        .make_control(0x20000, 1024);
    assert_eq!(freed, None);
    let builder = builder.with_command(pool_addr, 0, 256);

    let mut cmd = builder.finish(true).ok().unwrap();
    assert_eq!(cmd.state, RecordState::Ready);
    assert_eq!(cmd.command_size, 256);

    cmd.begin_recording();
    assert_eq!(cmd.state, RecordState::Recording);
    let handle = cmd.end_recording(0xC0FFEE);
    assert_eq!(handle, CommandHandle(0xC0FFEE));
    assert_eq!(cmd.state, RecordState::Ended);

    // reset returns the buffer to Ready for another recording.
    cmd.reset();
    assert_eq!(cmd.state, RecordState::Ready);

    // Teardown frees the owned control buffer, never the referenced pool.
    assert_eq!(cmd.teardown(), Some(FreeRequest { addr: 0x20000 }));
    assert_eq!(pool.teardown(), Some(FreeRequest { addr: 0x10000 }));
}

#[test]
fn command_buffer_create_failure_returns_builder() {
    let (builder, _) = CommandBuffer::new().with_control(0x20000, 512);
    match builder.finish(false) {
        Ok(_) => panic!("finish must fail when the driver reports failure"),
        Err((back, e)) => {
            assert_eq!(back.control, Storage::Owned { addr: 0x20000, size: 512 });
            assert_eq!(e.kind, HandleKind::CommandBuffer);
        },
    }
}

#[test]
fn shared_control_is_never_freed() {
    let (builder, _) = CommandBuffer::new().with_shared_control(0x6000, 512);
    let (builder, freed) = builder.with_control(0x7000, 512);
    assert_eq!(freed, None);

    let (builder, freed) = builder.with_shared_control(0x8000, 512);
    assert_eq!(freed, Some(FreeRequest { addr: 0x7000 }));
    assert_eq!(builder.teardown(), None);
}

#[test]
fn owned_control_is_freed_exactly_once() {
    let (builder, _) = CommandBuffer::new().with_control(0x6000, 512);
    let (builder, freed) = builder.make_control(0x7000, 512);
    assert_eq!(freed, Some(FreeRequest { addr: 0x6000 }));
    assert_eq!(builder.teardown(), Some(FreeRequest { addr: 0x7000 }));
}
