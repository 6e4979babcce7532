//! The guard on the batch of operations that a crank is submitted in.
//!
//! A crank is honoured only where it closes its batch and every operation
//! before it targets the one benign program. Anything else could ride on the
//! crank's authority, so the guard refuses it.

use crate::error::ErrorCode;
use crate::policy::{benign_program, compute_budget_program};
use crate::pubkey::{bytes_of, Pubkey};
use vstd::prelude::*;

verus! {

/// One operation of a batch, as far as the guard reads it.
#[derive(Clone, Copy, Debug, PartialEq, Eq)]
pub struct Operation {
    /// The program that the operation is addressed to.
    pub program_id: Pubkey,
}

/// The batch in flight, and which of its operations is being carried out.
#[derive(Debug, PartialEq, Eq)]
pub struct Instructions {
    /// The operations of the batch, in order.
    pub operations: Vec<Operation>,
    /// The index of the operation that is being carried out.
    pub current_index: usize,
}

/// What disqualifies a batch.
#[derive(Clone, Copy, Debug, PartialEq, Eq, Structural)]
pub enum BatchFault {
    /// The index given for the crank names no operation of the batch.
    OutOfRange,
    /// An operation follows the crank.
    NotLast,
    /// The operation at `index`, before the crank, targets another program
    /// than the benign one.
    Foreign { index: usize },
}

/// The operation is addressed to `program`.
pub open spec fn targets(op: Operation, program: Option<Seq<u8>>) -> bool {
    program == Some(op.program_id@)
}

/// The crank at index `crank` closes the batch, and all that stands before it
/// is addressed to the benign program.
pub open spec fn respectful(batch: Seq<Operation>, crank: int, benign: Option<Seq<u8>>) -> bool {
    &&& 0 <= crank < batch.len()
    &&& crank + 1 == batch.len()
    &&& forall|i: int| 0 <= i < crank ==> targets(#[trigger] batch[i], benign)
}

/// `fault` is what a scan of the batch reports: nothing for a respectful
/// batch; else the position of the crank where that is at fault; else the
/// operation nearest before the crank that is not benign.
pub open spec fn is_verdict(
    batch: Seq<Operation>,
    crank: int,
    benign: Option<Seq<u8>>,
    fault: Option<BatchFault>,
) -> bool {
    match fault {
        None => respectful(batch, crank, benign),
        Some(BatchFault::OutOfRange) => crank >= batch.len(),
        Some(BatchFault::NotLast) => crank + 1 < batch.len(),
        Some(BatchFault::Foreign { index }) => {
            &&& crank + 1 == batch.len()
            &&& index < crank
            &&& !targets(batch[index as int], benign)
            &&& forall|j: int| index < j < crank ==> targets(#[trigger] batch[j], benign)
        },
    }
}

impl Operation {
    /// Whether the operation is addressed to `program`.
    pub fn is_for(&self, program: &Option<Pubkey>) -> (yes: bool)
        ensures
            yes == targets(*self, bytes_of(*program)),
    {
        match program {
            Some(id) => self.program_id == *id,
            None => false,
        }
    }
}

/// Scans the batch as the guard does: first whether anything follows the
/// crank, then from the operation just before the crank back to the first,
/// stopping at the first that is not benign.
pub fn scan_batch(batch: &Vec<Operation>, crank: usize, benign: &Option<Pubkey>) -> (fault: Option<
    BatchFault,
>)
    ensures
        is_verdict(batch@, crank as int, bytes_of(*benign), fault),
{
    if crank >= batch.len() {
        return Some(BatchFault::OutOfRange);
    }
    if crank + 1 < batch.len() {
        return Some(BatchFault::NotLast);
    }
    let mut index: usize = crank;
    while index > 0
        invariant
            index <= crank,
            crank + 1 == batch.len(),
            forall|j: int| index <= j < crank ==> targets(#[trigger] batch@[j], bytes_of(*benign)),
        decreases index,
    {
        index -= 1;
        if !batch[index].is_for(benign) {
            return Some(BatchFault::Foreign { index });
        }
    }
    None
}

/// The guard itself: a batch passes exactly when it is respectful of the
/// crank at index `crank`; every other batch is refused as a disrespectful
/// crank.
pub fn validate_batch(batch: &Vec<Operation>, crank: usize) -> (verdict: Result<(), ErrorCode>)
    ensures
        verdict is Ok <==> respectful(batch@, crank as int, benign_program()),
        verdict matches Err(refusal) ==> refusal == ErrorCode::DisrespectfulCrank,
        // An operation before the crank that is not benign has the batch refused.
        (exists|i: int| 0 <= i < crank && i < batch@.len() && !targets(batch@[i], benign_program()))
            ==> verdict is Err,
        // So has an operation after the crank.
        crank + 1 < batch@.len() ==> verdict is Err,
{
    let benign = compute_budget_program();
    match scan_batch(batch, crank, &benign) {
        None => Ok(()),
        Some(_) => Err(ErrorCode::DisrespectfulCrank),
    }
}

/// A scan has one outcome: two verdicts on the same batch, crank and benign
/// program are the same verdict.
pub proof fn lemma_verdict_unique(
    batch: Seq<Operation>,
    crank: int,
    benign: Option<Seq<u8>>,
    first: Option<BatchFault>,
    second: Option<BatchFault>,
)
    requires
        is_verdict(batch, crank, benign, first),
        is_verdict(batch, crank, benign, second),
    ensures
        first == second,
{
    if let Some(BatchFault::Foreign { index: a }) = first {
        if let Some(BatchFault::Foreign { index: b }) = second {
            if a < b {
                assert(targets(batch[b as int], benign));
            }
            if b < a {
                assert(targets(batch[a as int], benign));
            }
        }
    }
}

} // verus!
