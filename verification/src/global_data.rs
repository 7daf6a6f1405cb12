//! A write-once cell for process-wide pointers, meant to hold the address of
//! the firmware's service table.

use vstd::prelude::*;

verus! {

use crate::errors::HandleError;

/// A write-once cell holding the address of an externally owned table.
/// Address zero stands for the null pointer: the cell starts null, accepts
/// exactly one non-null address, and never changes afterwards. The cell owns
/// only the slot; the table itself is owned by the firmware for the whole
/// boot session.
pub struct GlobalData {
    ptr: usize,
}

impl GlobalData {
    /// The address currently held; zero while uninitialized.
    pub closed spec fn addr(self) -> usize {
        self.ptr
    }

    /// Whether an `init` attempt with `ptr` succeeds on a cell holding `cell`.
    pub open spec fn init_accepts(cell: usize, ptr: usize) -> bool {
        cell == 0 && ptr != 0
    }

    /// The cell's value after an `init` attempt with `ptr`: the first non-null
    /// write wins and every other attempt leaves the cell unchanged.
    pub open spec fn init_step(cell: usize, ptr: usize) -> usize {
        if Self::init_accepts(cell, ptr) {
            ptr
        } else {
            cell
        }
    }

    /// A fresh cell, still null.
    pub fn new() -> (r: Self)
        ensures
            r.addr() == 0,
    {
        Self { ptr: 0 }
    }

    /// Set the cell if it is still null. A null argument is rejected before
    /// any state change; an already-set cell rejects the attempt and reports
    /// the value the winning caller stored.
    pub fn init(&mut self, ptr: usize) -> (r: Result<(), HandleError>)
        ensures
            final(self).addr() == Self::init_step(old(self).addr(), ptr),
            r is Ok <==> Self::init_accepts(old(self).addr(), ptr),
            ptr == 0 ==> r == Err::<(), HandleError>(HandleError::NullArgument),
            ptr != 0 && old(self).addr() != 0 ==> r == Err::<(), HandleError>(
                HandleError::AlreadyInitialized(old(self).addr()),
            ),
    {
        if ptr == 0 {
            Err(HandleError::NullArgument)
        } else if self.ptr == 0 {
            self.ptr = ptr;
            Ok(())
        } else {
            Err(HandleError::AlreadyInitialized(self.ptr))
        }
    }

    /// The held address, or `Uninitialized` while the cell is still null.
    /// Never blocks, never allocates, never changes the cell.
    pub fn get_mut(&mut self) -> (r: Result<usize, HandleError>)
        ensures
            *final(self) == *old(self),
            old(self).addr() == 0 ==> r == Err::<usize, HandleError>(HandleError::Uninitialized),
            old(self).addr() != 0 ==> r == Ok::<usize, HandleError>(old(self).addr()),
    {
        if self.ptr == 0 {
            Err(HandleError::Uninitialized)
        } else {
            Ok(self.ptr)
        }
    }
}

/// The cell's value after a run of `init` attempts, earliest attempt first.
pub open spec fn run_init_attempts(cell: usize, attempts: Seq<usize>) -> usize
    decreases attempts.len(),
{
    if attempts.len() == 0 {
        cell
    } else {
        run_init_attempts(GlobalData::init_step(cell, attempts[0]), attempts.drop_first())
    }
}

/// How many of a run of `init` attempts succeed.
pub open spec fn count_init_successes(cell: usize, attempts: Seq<usize>) -> nat
    decreases attempts.len(),
{
    if attempts.len() == 0 {
        0
    } else {
        (if GlobalData::init_accepts(cell, attempts[0]) {
            1nat
        } else {
            0nat
        }) + count_init_successes(GlobalData::init_step(cell, attempts[0]), attempts.drop_first())
    }
}

/// Once the cell is non-null, no run of further attempts changes it or
/// lets any of them succeed.
pub proof fn lemma_initialized_cell_stable(cell: usize, attempts: Seq<usize>)
    requires
        cell != 0,
    ensures
        run_init_attempts(cell, attempts) == cell,
        count_init_successes(cell, attempts) == 0,
    decreases attempts.len(),
{
    if attempts.len() > 0 {
        lemma_initialized_cell_stable(cell, attempts.drop_first());
    }
}

/// Write-once law: on a fresh cell the first non-null `init` succeeds, and a
/// later attempt neither succeeds nor changes the stored value.
pub proof fn lemma_init_write_once(first_ptr: usize, later_ptr: usize)
    requires
        first_ptr != 0,
    ensures
        GlobalData::init_accepts(0, first_ptr),
        !GlobalData::init_accepts(GlobalData::init_step(0, first_ptr), later_ptr),
        GlobalData::init_step(GlobalData::init_step(0, first_ptr), later_ptr) == first_ptr,
{
}

/// Race law: among any run of `init` attempts on a fresh cell whose first
/// attempt is non-null, exactly one succeeds, and the cell thereafter holds
/// the first attempt's pointer for every observer.
pub proof fn lemma_first_init_wins(attempts: Seq<usize>)
    requires
        attempts.len() > 0,
        attempts[0] != 0,
    ensures
        run_init_attempts(0, attempts) == attempts[0],
        count_init_successes(0, attempts) == 1,
{
    lemma_initialized_cell_stable(attempts[0], attempts.drop_first());
}

} // verus!
