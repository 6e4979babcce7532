//! The batch in flight as the host hands it over: the data of the
//! instructions account, read into the operations that the guard scans.

use crate::batch::{Instructions, Operation};
use crate::policy::{instructions_sysvar, is_instructions_sysvar};
use crate::pubkey::{bytes_of, Pubkey};
use vstd::prelude::*;

verus! {

/// The most operations that the instructions account can count.
pub const MAX_OPERATIONS: usize = 65535;

/// The program of the operation at `index` in the data of the instructions
/// account, where the data holds an operation there that can be read.
pub uninterp spec fn instruction_program(data: Seq<u8>, index: int) -> Option<Seq<u8>>;

/// The index that the data of the instructions account ends in: its last two
/// bytes, the low one first.
pub open spec fn stored_index(data: Seq<u8>) -> int {
    data[data.len() - 2] + 256 * data[data.len() - 1]
}

/// `operations` are what the data holds, from the first operation to the
/// last before an index at which none can be read.
pub open spec fn holds_batch(data: Seq<u8>, operations: Seq<Operation>) -> bool {
    &&& forall|i: int|
        0 <= i < operations.len() ==> instruction_program(data, i) == Some(
            (#[trigger] operations[i]).program_id@,
        )
    &&& operations.len() <= MAX_OPERATIONS
    &&& operations.len() == MAX_OPERATIONS || instruction_program(data, operations.len() as int)
        is None
}

/// `solana_program::sysvar::instructions::load_instruction_at`, the parse of
/// one operation out of the account's data, of which only the program is
/// kept; `None` for any of its errors. What it returns depends on the index
/// and the data alone, so the outcome has a name.
#[allow(deprecated)]
#[verifier::external_body]
fn load_program_at(index: usize, data: &[u8]) -> (program: Option<Pubkey>)
    ensures
        bytes_of(program) == instruction_program(data@, index as int),
{
    match solana_program::sysvar::instructions::load_instruction_at(index, data) {
        Ok(instruction) => Some(Pubkey { bytes: instruction.program_id.to_bytes() }),
        Err(_) => None,
    }
}

/// `solana_program::sysvar::instructions::load_current_index`, which reads the
/// last two bytes of the account's data as a number, the low byte first. It
/// needs those two bytes to be there.
#[allow(deprecated)]
#[verifier::external_body]
fn load_current_index(data: &[u8]) -> (index: u16)
    requires
        data@.len() >= 2,
    ensures
        index == stored_index(data@),
{
    solana_program::sysvar::instructions::load_current_index(data)
}

impl Instructions {
    /// Reads the batch in flight out of the instructions account, given by its
    /// address and its data. Nothing is read from an account at another
    /// address than that of the instructions account, nor from data too short
    /// to end in an index.
    pub fn load(key: &Pubkey, data: &[u8]) -> (batch: Option<Instructions>)
        ensures
            batch is Some <==> instructions_sysvar() == Some(key@) && data@.len() >= 2,
            batch matches Some(read) ==> {
                &&& read.current_index == stored_index(data@)
                &&& holds_batch(data@, read.operations@)
            },
    {
        if !is_instructions_sysvar(key) || data.len() < 2 {
            return None;
        }
        let current_index = load_current_index(data) as usize;
        let mut operations: Vec<Operation> = Vec::new();
        while operations.len() < MAX_OPERATIONS
            invariant
                operations.len() <= MAX_OPERATIONS,
                forall|i: int|
                    0 <= i < operations.len() ==> instruction_program(data@, i) == Some(
                        (#[trigger] operations@[i]).program_id@,
                    ),
            ensures
                holds_batch(data@, operations@),
            decreases MAX_OPERATIONS - operations.len(),
        {
            match load_program_at(operations.len(), data) {
                Some(program_id) => {
                    operations.push(Operation { program_id });
                },
                None => {
                    break ;
                },
            }
        }
        Some(Instructions { operations, current_index })
    }
}

/// In a batch read from the instructions account, the crank closes the batch
/// exactly when nothing can be read at the index just past it.
pub proof fn lemma_last_when_next_is_missing(data: Seq<u8>, operations: Seq<Operation>, crank: int)
    requires
        holds_batch(data, operations),
        0 <= crank < operations.len(),
        crank + 1 < MAX_OPERATIONS,
    ensures
        crank + 1 == operations.len() <==> instruction_program(data, crank + 1) is None,
{
    if crank + 1 < operations.len() {
        assert(instruction_program(data, crank + 1) == Some(operations[crank + 1].program_id@));
    }
}

} // verus!
