//! Tests for the allocate/deallocate front and the alignment codec, driven
//! by a call-counting substitute for the firmware pool primitive.

use uefi_spec::alignment::{align_up, pad_size, HeaderStore, HEADER_SIZE, POOL_ALIGNMENT};
use uefi_spec::allocator::{
    finish_allocate, plan_allocate, plan_deallocate, AllocatePlan, DeallocatePlan,
};
use uefi_spec::global_data::GlobalData;

const TABLE: usize = 0x1000;
const SUCCESS: usize = 0;
const OUT_OF_RESOURCES: usize = 9 | (0x80 << (usize::BITS as usize - 8));

/// A substitute for the external pool primitive: counts its calls and hands
/// back a preset status and raw block address.
struct MockPool {
    calls: usize,
    status: usize,
    next_block: usize,
}

impl MockPool {
    fn new(next_block: usize) -> Self {
        Self {
            calls: 0,
            status: SUCCESS,
            next_block,
        }
    }

    fn allocate(&mut self, _padded_size: usize) -> (usize, usize) {
        self.calls += 1;
        (self.status, self.next_block)
    }
}

/// Run a whole allocation against a mock pool: decide, call the pool only if
/// the front asked for it, and finish.
fn allocate_via(
    handle: &mut GlobalData,
    headers: &mut HeaderStore,
    pool: &mut MockPool,
    size: usize,
    alignment: usize,
) -> usize {
    match plan_allocate(handle, size, alignment) {
        AllocatePlan::NoRequest => 0,
        AllocatePlan::Request { table, padded_size } => {
            assert_eq!(table, TABLE);
            let (status, raw_block) = pool.allocate(padded_size);
            finish_allocate(headers, raw_block, status, alignment)
        }
    }
}

fn ready_handle() -> GlobalData {
    let mut handle = GlobalData::new();
    assert!(handle.init(TABLE).is_ok());
    handle
}

#[test]
fn baseline_alignments_return_block_unchanged() {
    for alignment in [1usize, 2, 4, 8] {
        let mut handle = ready_handle();
        let mut headers = HeaderStore::new();
        let mut pool = MockPool::new(0x4008);
        let ptr = allocate_via(&mut handle, &mut headers, &mut pool, 24, alignment);
        assert_eq!(ptr, 0x4008);
        assert_eq!(pool.calls, 1);
        // no header was written anywhere near the block
        for addr in 0x4000..0x4020 {
            assert!(!headers.contains(addr));
        }
    }
}

#[test]
fn over_alignments_return_aligned_pointer_and_recover_block() {
    for alignment in [16usize, 32, 64, 128] {
        let mut handle = ready_handle();
        let mut headers = HeaderStore::new();
        let raw = 0x4008;
        let mut pool = MockPool::new(raw);
        let ptr = allocate_via(&mut handle, &mut headers, &mut pool, 24, alignment);
        assert_eq!(pool.calls, 1);
        assert_eq!(ptr % alignment, 0);
        assert!(raw < ptr && ptr <= raw + alignment);
        // the hidden header records exactly the raw block the pool returned
        assert_eq!(headers.read(ptr - HEADER_SIZE), raw);
        // deallocation recovers that raw block and frees it
        match plan_deallocate(&mut handle, &mut headers, ptr, alignment) {
            DeallocatePlan::Free { table, target } => {
                assert_eq!(table, TABLE);
                assert_eq!(target, raw);
            }
            DeallocatePlan::NoRequest => panic!("an initialized handle must free"),
        }
        assert!(!headers.contains(ptr - HEADER_SIZE));
    }
}

#[test]
fn zero_size_never_calls_the_pool() {
    for alignment in [1usize, 8, 16, 128] {
        let mut handle = ready_handle();
        let mut headers = HeaderStore::new();
        let mut pool = MockPool::new(0x4008);
        let ptr = allocate_via(&mut handle, &mut headers, &mut pool, 0, alignment);
        assert_eq!(ptr, 0);
        assert_eq!(pool.calls, 0);
    }
}

#[test]
fn uninitialized_handle_yields_null_without_pool_call() {
    let mut handle = GlobalData::new();
    let mut headers = HeaderStore::new();
    let mut pool = MockPool::new(0x4008);
    let ptr = allocate_via(&mut handle, &mut headers, &mut pool, 24, 16);
    assert_eq!(ptr, 0);
    assert_eq!(pool.calls, 0);
}

#[test]
fn failed_pool_status_yields_null() {
    let mut handle = ready_handle();
    let mut headers = HeaderStore::new();
    let mut pool = MockPool::new(0x4008);
    pool.status = OUT_OF_RESOURCES;
    let ptr = allocate_via(&mut handle, &mut headers, &mut pool, 24, 16);
    assert_eq!(ptr, 0);
    assert_eq!(pool.calls, 1);
    assert!(!headers.contains(0x4008));
}

#[test]
fn null_pool_block_yields_null() {
    let mut handle = ready_handle();
    let mut headers = HeaderStore::new();
    let mut pool = MockPool::new(0);
    let ptr = allocate_via(&mut handle, &mut headers, &mut pool, 24, 16);
    assert_eq!(ptr, 0);
    assert_eq!(pool.calls, 1);
}

#[test]
fn baseline_deallocate_frees_pointer_as_is() {
    let mut handle = ready_handle();
    let mut headers = HeaderStore::new();
    match plan_deallocate(&mut handle, &mut headers, 0x4008, 8) {
        DeallocatePlan::Free { table, target } => {
            assert_eq!(table, TABLE);
            assert_eq!(target, 0x4008);
        }
        DeallocatePlan::NoRequest => panic!("an initialized handle must free"),
    }
}

#[test]
fn uninitialized_handle_deallocates_nothing() {
    let mut handle = GlobalData::new();
    let mut headers = HeaderStore::new();
    assert_eq!(
        plan_deallocate(&mut handle, &mut headers, 0x4008, 8),
        DeallocatePlan::NoRequest
    );
}

#[test]
fn end_to_end_scenario() {
    // baseline 8; allocate(size=24, alignment=16); the pool returns raw
    // address 0x2004 for the padded request of 40 bytes; the aligned address
    // is 0x2010, the header at 0x2008 holds 0x2004, and deallocation frees
    // 0x2004.
    assert_eq!(POOL_ALIGNMENT, 8);
    let mut handle = ready_handle();
    let mut headers = HeaderStore::new();
    let mut pool = MockPool::new(0x2004);

    let plan = plan_allocate(&mut handle, 24, 16);
    assert_eq!(
        plan,
        AllocatePlan::Request {
            table: TABLE,
            padded_size: 40
        }
    );
    let padded_size = match plan {
        AllocatePlan::Request { padded_size, .. } => padded_size,
        AllocatePlan::NoRequest => unreachable!(),
    };
    let (status, raw_block) = pool.allocate(padded_size);
    let ptr = finish_allocate(&mut headers, raw_block, status, 16);
    assert_eq!(ptr, 0x2010);
    assert_eq!(headers.read(0x2008), 0x2004);

    match plan_deallocate(&mut handle, &mut headers, ptr, 16) {
        DeallocatePlan::Free { table, target } => {
            assert_eq!(table, TABLE);
            assert_eq!(target, 0x2004);
        }
        DeallocatePlan::NoRequest => panic!("an initialized handle must free"),
    }
}

#[test]
fn align_up_exact_values() {
    assert_eq!(align_up(0x2004, 16), 0x2010);
    assert_eq!(align_up(0x2010, 16), 0x2010);
    assert_eq!(align_up(0, 8), 0);
    assert_eq!(align_up(1, 1), 1);
    assert_eq!(align_up(7, 8), 8);
}

#[test]
fn pad_size_exact_values() {
    assert_eq!(pad_size(24, 1, 8), 24);
    assert_eq!(pad_size(24, 8, 8), 24);
    assert_eq!(pad_size(24, 16, 8), 40);
    assert_eq!(pad_size(0, 128, 8), 128);
    assert_eq!(pad_size(24, 16, 16), 24);
}
