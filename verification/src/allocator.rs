//! The public allocate/deallocate surface.
//!
//! Each operation is split into a decision and a completion. The decision
//! loads the global handle and says whether the external pool primitive must
//! be called and with what; the driver performs the call (it is firmware I/O)
//! and hands the outcome back to the completion. Zero-size requests and an
//! uninitialized handle yield a null result without any pool call; a rejected
//! free is fatal and the driver must abort on it, since it indicates
//! corruption that cannot be safely continued past.

use vstd::prelude::*;

verus! {

use crate::alignment::{
    HEADER_SIZE, HeaderStore, POOL_ALIGNMENT, header_fits, is_aligned, pad_size, spec_pad_size,
    spec_stamp_addr, stamp, recover, lemma_baseline_aligned_header_fits, lemma_stamp_addr_aligned,
};
use crate::global_data::GlobalData;
use crate::helpers::{code_to_result, spec_status_result};
use vstd::arithmetic::power2::is_pow2;

/// What the front decided to do with an allocation request.
#[derive(Clone, Copy, Debug, PartialEq, Eq, Structural)]
pub enum AllocatePlan {
    /// The result is null and the pool primitive must not be called: the
    /// request was for zero bytes, or the handle was never initialized.
    NoRequest,
    /// Ask the pool primitive reached through the service table at `table`
    /// for a block of `padded_size` bytes.
    Request { table: usize, padded_size: usize },
}

/// What the front decided to do with a deallocation request.
#[derive(Clone, Copy, Debug, PartialEq, Eq, Structural)]
pub enum DeallocatePlan {
    /// The handle was never initialized: no pool to hand the block back to.
    NoRequest,
    /// Pass `target` to the pool's free primitive reached through the service
    /// table at `table`. The driver must treat a non-success status from the
    /// free as fatal and abort.
    Free { table: usize, target: usize },
}

/// Decide an allocation request: a zero-size request or an uninitialized
/// handle produces no pool call, anything else asks the pool for the padded
/// size.
pub fn plan_allocate(handle: &mut GlobalData, size: usize, alignment: usize) -> (plan:
    AllocatePlan)
    requires
        is_pow2(alignment as int),
        alignment > POOL_ALIGNMENT ==> size + alignment <= usize::MAX,
    ensures
        *final(handle) == *old(handle),
        size == 0 ==> plan == AllocatePlan::NoRequest,
        size != 0 && old(handle).addr() == 0 ==> plan == AllocatePlan::NoRequest,
        size != 0 && old(handle).addr() != 0 ==> plan == (AllocatePlan::Request {
            table: old(handle).addr(),
            padded_size: spec_pad_size(
                size as int,
                alignment as int,
                POOL_ALIGNMENT as int,
            ) as usize,
        }),
{
    if size == 0 {
        return AllocatePlan::NoRequest;
    }
    match handle.get_mut() {
        Ok(table) => {
            let padded_size = pad_size(size, alignment, POOL_ALIGNMENT);
            AllocatePlan::Request { table, padded_size }
        },
        Err(_) => AllocatePlan::NoRequest,
    }
}

/// Complete an allocation with what the pool returned. A failed status or a
/// null block degrades to a null result; a block for an alignment the pool
/// already guarantees is returned unchanged; a stronger alignment gets the
/// stamped, aligned pointer with its hidden header recorded.
pub fn finish_allocate(
    headers: &mut HeaderStore,
    raw_block: usize,
    status_code: usize,
    alignment: usize,
) -> (ptr: usize)
    requires
        is_pow2(alignment as int),
        (spec_status_result(status_code) is Ok && raw_block != 0 && alignment > POOL_ALIGNMENT)
            ==> header_fits(raw_block as int, alignment as int) && raw_block + alignment
            <= usize::MAX,
    ensures
        spec_status_result(status_code) is Err || raw_block == 0 ==> ptr == 0 && final(headers)@
            == old(headers)@,
        spec_status_result(status_code) is Ok && raw_block != 0 && alignment <= POOL_ALIGNMENT
            ==> ptr == raw_block && final(headers)@ == old(headers)@,
        spec_status_result(status_code) is Ok && raw_block != 0 && alignment > POOL_ALIGNMENT
            ==> {
            &&& ptr == spec_stamp_addr(raw_block as int, alignment as int)
            &&& is_aligned(ptr as int, alignment as int)
            &&& raw_block < ptr <= raw_block + alignment
            &&& final(headers)@ == old(headers)@.insert((ptr - HEADER_SIZE) as usize, raw_block)
        },
{
    if code_to_result(status_code).is_err() || raw_block == 0 {
        return 0;
    }
    if alignment <= POOL_ALIGNMENT {
        raw_block
    } else {
        stamp(headers, raw_block, alignment)
    }
}

/// Decide a deallocation request: an uninitialized handle frees nothing; an
/// alignment within the pool's guarantee frees the pointer as is; a stronger
/// alignment consumes the hidden header and frees the raw block it recorded.
/// The pointer must be one the matching allocation produced.
pub fn plan_deallocate(
    handle: &mut GlobalData,
    headers: &mut HeaderStore,
    ptr: usize,
    alignment: usize,
) -> (plan: DeallocatePlan)
    requires
        (old(handle).addr() != 0 && alignment > POOL_ALIGNMENT) ==> ptr >= HEADER_SIZE && old(
            headers,
        )@.contains_key((ptr - HEADER_SIZE) as usize),
    ensures
        *final(handle) == *old(handle),
        old(handle).addr() == 0 ==> plan == DeallocatePlan::NoRequest && final(headers)@ == old(
            headers,
        )@,
        old(handle).addr() != 0 && alignment <= POOL_ALIGNMENT ==> plan == (DeallocatePlan::Free {
            table: old(handle).addr(),
            target: ptr,
        }) && final(headers)@ == old(headers)@,
        old(handle).addr() != 0 && alignment > POOL_ALIGNMENT ==> plan == (DeallocatePlan::Free {
            table: old(handle).addr(),
            target: old(headers)@[(ptr - HEADER_SIZE) as usize],
        }) && final(headers)@ == old(headers)@.remove((ptr - HEADER_SIZE) as usize),
{
    match handle.get_mut() {
        Ok(table) => {
            if alignment <= POOL_ALIGNMENT {
                DeallocatePlan::Free { table, target: ptr }
            } else {
                let target = recover(headers, ptr);
                DeallocatePlan::Free { table, target }
            }
        },
        Err(_) => DeallocatePlan::NoRequest,
    }
}

/// Round-trip law for over-aligned allocations: on any baseline-aligned raw
/// block from the pool, the pointer the front hands out is a multiple of the
/// requested alignment, the hidden header fits, and reading the header slot
/// in front of the pointer yields exactly the raw block the pool returned,
/// so the matching deallocation frees that block.
pub proof fn lemma_overaligned_round_trip(headers: Map<usize, usize>, raw_block: usize, alignment: usize)
    requires
        is_pow2(alignment as int),
        alignment > POOL_ALIGNMENT,
        raw_block % POOL_ALIGNMENT == 0,
        raw_block != 0,
        raw_block + alignment <= usize::MAX,
    ensures
        header_fits(raw_block as int, alignment as int),
        ({
            let p = spec_stamp_addr(raw_block as int, alignment as int);
            &&& is_aligned(p, alignment as int)
            &&& raw_block < p <= raw_block + alignment
            &&& headers.insert((p - HEADER_SIZE) as usize, raw_block)[(p - HEADER_SIZE) as usize]
                == raw_block
        }),
{
    lemma_baseline_aligned_header_fits(raw_block as int, alignment as int);
    lemma_stamp_addr_aligned(raw_block as int, alignment as int);
}

} // verus!
