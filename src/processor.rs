use vstd::prelude::*;

use crate::account::{Account, Address};
use crate::error::CounterError;
use crate::state::{decode, encode, incremented, Counter, COUNTER_LEN};

verus! {

/// Opcode of [`Instruction::Create`].
pub const OPCODE_CREATE: u8 = 0;

/// Opcode of [`Instruction::Increment`].
pub const OPCODE_INCREMENT: u8 = 1;

/// The instructions that the program understands.
#[derive(Clone, Copy, Debug, PartialEq, Eq, Structural)]
pub enum Instruction {
    /// Writes a zero counter into an empty account.
    Create,
    /// Adds one to the counter that an account holds, wrapping at 256.
    Increment,
}

/// The instruction that an opcode byte selects, if any.
pub open spec fn instruction_of(opcode: u8) -> Option<Instruction> {
    if opcode == OPCODE_CREATE {
        Some(Instruction::Create)
    } else if opcode == OPCODE_INCREMENT {
        Some(Instruction::Increment)
    } else {
        None
    }
}

/// What `instruction` makes of an account owned by `owner` that holds `data`,
/// when invoked by the program `program_id`: the account's new data, or the
/// reason it is rejected.
pub open spec fn apply(
    program_id: Seq<u8>,
    owner: Seq<u8>,
    data: Seq<u8>,
    instruction: Instruction,
) -> Result<Seq<u8>, CounterError> {
    if owner != program_id {
        Err(CounterError::IncorrectOwner)
    } else {
        match instruction {
            Instruction::Create => if data.len() != 0 {
                Err(CounterError::AlreadyInitialized)
            } else {
                Ok(encode(Counter { value: 0 }))
            },
            Instruction::Increment => if data.len() != COUNTER_LEN {
                Err(CounterError::DecodeFailure)
            } else {
                Ok(encode(incremented(decode(data))))
            },
        }
    }
}

/// What the opcode byte `opcode` makes of the account: as [`apply`], and
/// rejected for an opcode that names no instruction.
pub open spec fn dispatch(
    program_id: Seq<u8>,
    owner: Seq<u8>,
    data: Seq<u8>,
    opcode: u8,
) -> Result<Seq<u8>, CounterError> {
    match instruction_of(opcode) {
        Some(instruction) => apply(program_id, owner, data, instruction),
        None => Err(CounterError::InvalidInstruction),
    }
}

/// `after` is `before` with the data of its first account replaced by `data`.
pub open spec fn first_data_replaced(
    before: Seq<Account>,
    after: Seq<Account>,
    data: Seq<u8>,
) -> bool {
    &&& before.len() > 0
    &&& after.len() == before.len()
    &&& after[0].owner == before[0].owner
    &&& after[0].data@ == data
    &&& forall|i: int| 1 <= i < after.len() ==> after[i] == before[i]
}

/// Create on an empty account owned by the invoking program succeeds and
/// leaves one byte holding a zero counter.
pub proof fn lemma_create_on_empty(program_id: Seq<u8>, owner: Seq<u8>)
    requires
        owner == program_id,
    ensures
        dispatch(program_id, owner, Seq::<u8>::empty(), OPCODE_CREATE) == Ok::<
            Seq<u8>,
            CounterError,
        >(seq![0u8]),
{
    assert(encode(Counter { value: 0 }) =~= seq![0u8]);
}

/// Create on an account that already holds data, owned by the invoking
/// program, is rejected as already initialized.
pub proof fn lemma_create_on_non_empty(program_id: Seq<u8>, owner: Seq<u8>, data: Seq<u8>)
    requires
        owner == program_id,
        data.len() > 0,
    ensures
        dispatch(program_id, owner, data, OPCODE_CREATE) == Err::<Seq<u8>, CounterError>(
            CounterError::AlreadyInitialized,
        ),
{
}

/// Create and Increment on an account that the invoking program does not own
/// are rejected for the owner, whatever the account holds.
pub proof fn lemma_owner_mismatch(program_id: Seq<u8>, owner: Seq<u8>, data: Seq<u8>, opcode: u8)
    requires
        owner != program_id,
        opcode == OPCODE_CREATE || opcode == OPCODE_INCREMENT,
    ensures
        dispatch(program_id, owner, data, opcode) == Err::<Seq<u8>, CounterError>(
            CounterError::IncorrectOwner,
        ),
{
}

/// Increment on a one-byte account holding `v`, owned by the invoking program,
/// leaves it holding `v + 1` modulo 256.
pub proof fn lemma_increment_wraps(program_id: Seq<u8>, owner: Seq<u8>, v: u8)
    requires
        owner == program_id,
    ensures
        dispatch(program_id, owner, seq![v], OPCODE_INCREMENT) == Ok::<Seq<u8>, CounterError>(
            seq![((v + 1) % 256) as u8],
        ),
{
    assert(encode(incremented(decode(seq![v]))) =~= seq![((v + 1) % 256) as u8]);
}

/// Every opcode other than Create's and Increment's is rejected as an invalid
/// instruction, whatever the account.
pub proof fn lemma_unknown_opcode(program_id: Seq<u8>, owner: Seq<u8>, data: Seq<u8>, opcode: u8)
    requires
        opcode != OPCODE_CREATE,
        opcode != OPCODE_INCREMENT,
    ensures
        dispatch(program_id, owner, data, opcode) == Err::<Seq<u8>, CounterError>(
            CounterError::InvalidInstruction,
        ),
{
}

impl Instruction {
    /// Reads the instruction that an opcode byte selects.
    pub fn unpack(opcode: u8) -> (r: Result<Instruction, CounterError>)
        ensures
            r == (match instruction_of(opcode) {
                Some(instruction) => Ok::<Instruction, CounterError>(instruction),
                None => Err(CounterError::InvalidInstruction),
            }),
    {
        if opcode == OPCODE_CREATE {
            Ok(Instruction::Create)
        } else if opcode == OPCODE_INCREMENT {
            Ok(Instruction::Increment)
        } else {
            Err(CounterError::InvalidInstruction)
        }
    }
}

/// Carries out `instruction` on one account, as [`apply`] says; a rejected
/// instruction leaves the account as it was.
pub fn execute(program_id: &Address, account: &mut Account, instruction: Instruction) -> (r: Result<
    (),
    CounterError,
>)
    ensures
        match apply(program_id@, old(account).owner@, old(account).data@, instruction) {
            Ok(data) => {
                &&& r == Ok::<(), CounterError>(())
                &&& final(account).owner == old(account).owner
                &&& final(account).data@ == data
            },
            Err(e) => {
                &&& r == Err::<(), CounterError>(e)
                &&& *final(account) == *old(account)
            },
        },
{
    if !account.owner.same_as(program_id) {
        return Err(CounterError::IncorrectOwner);
    }
    match instruction {
        Instruction::Create => {
            if !account.data_is_empty() {
                return Err(CounterError::AlreadyInitialized);
            }
            let counter = Counter { value: 0 };
            account.data.resize(COUNTER_LEN, 0);
            counter.pack_into_slice(account.data.as_mut_slice());
            Ok(())
        },
        Instruction::Increment => {
            let mut counter = match Counter::unpack(account.data.as_slice()) {
                Ok(c) => c,
                Err(e) => return Err(e),
            };
            counter.increment();
            counter.pack_into_slice(account.data.as_mut_slice());
            Ok(())
        },
    }
}

/// Entry point of the program: selects the first account, reads the opcode
/// from the first byte of the instruction data, and carries the instruction
/// out on that account, as [`dispatch`] says. Only the first account's data
/// ever changes, and only on success.
pub fn process_instruction(
    program_id: &Address,
    accounts: &mut [Account],
    instruction_data: &[u8],
) -> (r: Result<(), CounterError>)
    requires
        old(accounts)@.len() > 0 ==> instruction_data@.len() >= 1,
    ensures
        old(accounts)@.len() == 0 ==> {
            &&& r == Err::<(), CounterError>(CounterError::MissingAccount)
            &&& final(accounts)@ == old(accounts)@
        },
        old(accounts)@.len() > 0 ==> match dispatch(
            program_id@,
            old(accounts)@[0].owner@,
            old(accounts)@[0].data@,
            instruction_data@[0],
        ) {
            Ok(data) => {
                &&& r == Ok::<(), CounterError>(())
                &&& first_data_replaced(old(accounts)@, final(accounts)@, data)
            },
            Err(e) => {
                &&& r == Err::<(), CounterError>(e)
                &&& final(accounts)@ == old(accounts)@
            },
        },
{
    let account = match accounts.first_mut() {
        Some(a) => a,
        None => return Err(CounterError::MissingAccount),
    };
    let instruction = match Instruction::unpack(instruction_data[0]) {
        Ok(i) => i,
        Err(e) => return Err(e),
    };
    execute(program_id, account, instruction)
}

} // verus!
