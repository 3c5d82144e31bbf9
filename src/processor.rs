use crate::address::Address;
use crate::host::{
    account_key, account_owner, address_of, invoke_under_seed, invoke_under_sender, key_field,
    owner_field, trace, transfer_instruction,
};
use crate::instruction::EscrowInstruction;
use crate::plan::{plan_instruction, planned, AccountRecord, Authority, Transfer, SYSTEM_PROGRAM};
use solana_program::account_info::AccountInfo;
use solana_program::program_error::ProgramError;
use solana_program::pubkey::Pubkey;
use vstd::prelude::*;

verus! {

/// True when `r` holds, position by position, the key and owner bytes of `accounts`.
pub open spec fn records_match(r: Seq<AccountRecord>, accounts: Seq<AccountInfo>) -> bool {
    &&& r.len() == accounts.len()
    &&& forall|j: int|
        0 <= j < r.len() ==> r[j].key@ == address_of(key_field(#[trigger] accounts[j]))
            && r[j].owner@ == address_of(owner_field(accounts[j]))
}

/// What the escrow reads of each account in the list, in order.
fn read_records(accounts: &[AccountInfo]) -> (r: Vec<AccountRecord>)
    ensures
        records_match(r@, accounts@),
{
    let mut records: Vec<AccountRecord> = Vec::new();
    let mut i: usize = 0;
    while i < accounts.len()
        invariant
            0 <= i <= accounts@.len(),
            records@.len() == i,
            forall|j: int|
                0 <= j < i ==> records@[j].key@ == address_of(key_field(#[trigger] accounts@[j]))
                    && records@[j].owner@ == address_of(owner_field(accounts@[j])),
        decreases accounts@.len() - i,
    {
        let key = Address::new(account_key(&accounts[i]).to_bytes());
        let owner = Address::new(account_owner(&accounts[i]).to_bytes());
        records.push(AccountRecord { key, owner });
        i = i + 1;
    }
    records
}

/// Whether and with which error the plan rejects depends only on the owners' bytes.
proof fn lemma_rejection_reads_owners(
    program_id: Seq<u8>,
    rs: Seq<AccountRecord>,
    qs: Seq<AccountRecord>,
    data: Seq<u8>,
)
    requires
        rs.len() == qs.len(),
        forall|j: int| 0 <= j < rs.len() ==> rs[j].owner@ == qs[j].owner@,
    ensures
        (planned(program_id, rs, data) is Err) == (planned(program_id, qs, data) is Err),
        planned(program_id, rs, data) is Err ==> planned(program_id, rs, data) == planned(
            program_id,
            qs,
            data,
        ),
{
    if rs.len() >= 4 {
        assert(rs[0].owner@ == qs[0].owner@);
    }
}

/// Entry point of the escrow program: routes the invocation, then has the host
/// perform the planned transfers in order, stopping at the first that fails.
/// A rejected invocation performs no transfer, and its error is the plan's;
/// an error from the host is passed on unchanged.
pub fn process_instruction(
    program_id: &Pubkey,
    accounts: &[AccountInfo],
    instruction_data: &[u8],
) -> (r: Result<(), ProgramError>)
    ensures
        accounts@.len() < 4 ==> r == Err::<(), ProgramError>(ProgramError::NotEnoughAccountKeys),
        accounts@.len() >= 4 && EscrowInstruction::decode(instruction_data@) is Err ==> r == Err::<
            (),
            ProgramError,
        >(ProgramError::InvalidInstructionData),
        accounts@.len() == 4 && EscrowInstruction::decode(instruction_data@) == Ok::<
            EscrowInstruction,
            ProgramError,
        >(EscrowInstruction::Payout) ==> r == Err::<(), ProgramError>(
            ProgramError::NotEnoughAccountKeys,
        ),
        accounts@.len() >= 4 && EscrowInstruction::decode(instruction_data@) == Ok::<
            EscrowInstruction,
            ProgramError,
        >(EscrowInstruction::Initialize) && address_of(owner_field(accounts@[0])) != address_of(
            *program_id,
        ) ==> r == Err::<(), ProgramError>(ProgramError::IncorrectProgramId),
        r is Ok && EscrowInstruction::decode(instruction_data@) == Ok::<
            EscrowInstruction,
            ProgramError,
        >(EscrowInstruction::Initialize) ==> address_of(owner_field(accounts@[0])) == address_of(
            *program_id,
        ),
        forall|rs: Seq<AccountRecord>|
            #[trigger] records_match(rs, accounts@) && planned(
                address_of(*program_id),
                rs,
                instruction_data@,
            ) is Err ==> r == Err::<(), ProgramError>(
                planned(address_of(*program_id), rs, instruction_data@)->Err_0,
            ),
        forall|rs: Seq<AccountRecord>|
            #[trigger] records_match(rs, accounts@) && r is Ok ==> planned(
                address_of(*program_id),
                rs,
                instruction_data@,
            ) is Ok,
{
    let records = read_records(accounts);
    let records_view = records.as_slice();
    assert(records_view@ == records@);
    let id = Address::new(program_id.to_bytes());
    let ghost pid = address_of(*program_id);
    let ghost data = instruction_data@;
    assert forall|rs: Seq<AccountRecord>| #[trigger] records_match(rs, accounts@) implies (planned(
        pid,
        rs,
        data,
    ) is Err) == (planned(pid, records@, data) is Err) && (planned(pid, rs, data) is Err
        ==> planned(pid, rs, data) == planned(pid, records@, data)) by {
        assert forall|j: int| 0 <= j < rs.len() implies rs[j].owner@ == records@[j].owner@ by {
            assert(rs[j].owner@ == address_of(owner_field(accounts@[j])));
        }
        lemma_rejection_reads_owners(pid, rs, records@, data);
    }
    if accounts.len() >= 4 {
        match EscrowInstruction::unpack(instruction_data) {
            Ok(EscrowInstruction::Initialize) => trace("Instruction: Initialize Game"),
            Ok(EscrowInstruction::Payout) => trace("Instruction: Payout Winner"),
            Err(_) => trace("Error: Invalid instruction"),
        }
    }
    let transfers = match plan_instruction(&id, records_view, instruction_data) {
        Ok(ts) => ts,
        Err(e) => {
            assert(planned(id@, records@, instruction_data@) == Err::<Seq<Transfer>, ProgramError>(e));
            return Err(e);
        },
    };
    assert(id@ == pid);
    assert(records@[0].owner@ == address_of(owner_field(accounts@[0])));
    assert(forall|rs: Seq<AccountRecord>|
        #[trigger] records_match(rs, accounts@) ==> planned(pid, rs, data) is Ok);
    assert(forall|j: int|
        0 <= j < transfers@.len() ==> transfers@[j].from < accounts@.len() && transfers@[j].to
            < accounts@.len());
    let mut i: usize = 0;
    while i < transfers.len()
        invariant
            0 <= i <= transfers@.len(),
            accounts@.len() > SYSTEM_PROGRAM,
            records_match(records@, accounts@),
            id@ == pid,
            pid == address_of(*program_id),
            data == instruction_data@,
            records@[0].owner@ == address_of(owner_field(accounts@[0])),
            forall|rs: Seq<AccountRecord>|
                #[trigger] records_match(rs, accounts@) ==> planned(pid, rs, data) is Ok,
            planned(id@, records@, instruction_data@) == Ok::<Seq<Transfer>, ProgramError>(
                transfers@,
            ),
            forall|j: int|
                0 <= j < transfers@.len() ==> transfers@[j].from < accounts@.len()
                    && transfers@[j].to < accounts@.len(),
        decreases transfers@.len() - i,
    {
        let t: Transfer = transfers[i];
        let from = &accounts[t.from];
        let to = &accounts[t.to];
        let system = &accounts[SYSTEM_PROGRAM];
        let ix = transfer_instruction(from, to, t.lamports);
        let outcome = match t.authority {
            Authority::Sender => invoke_under_sender(&ix, from, to, system),
            Authority::Derived { base, bump } => invoke_under_seed(
                &ix,
                from,
                to,
                system,
                &base.bytes,
                bump,
            ),
        };
        if let Err(e) = outcome {
            return Err(e);
        }
        i = i + 1;
    }
    Ok(())
}

} // verus!
