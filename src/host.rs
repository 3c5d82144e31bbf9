use solana_program::account_info::AccountInfo;
use solana_program::instruction::Instruction;
use solana_program::program_error::ProgramError;
use solana_program::pubkey::Pubkey;
use vstd::prelude::*;

verus! {

/// The host's generic error kinds; their variants are read as they stand.
#[verifier::external_type_specification]
pub struct ExProgramError(ProgramError);

#[verifier::external_type_specification]
#[verifier::external_body]
pub struct ExPubkey(Pubkey);

#[verifier::external_type_specification]
#[verifier::external_body]
pub struct ExInstruction(Instruction);

#[verifier::external_type_specification]
#[verifier::external_body]
pub struct ExAccountInfo<'a>(AccountInfo<'a>);

} // verus!

verus! {

/// The raw bytes of an address, as `Pubkey::to_bytes` returns them.
pub uninterp spec fn address_of(key: Pubkey) -> Seq<u8>;

/// The `key` field of an account handed in by the host.
pub uninterp spec fn key_field(account: AccountInfo) -> Pubkey;

/// The `owner` field of an account handed in by the host.
pub uninterp spec fn owner_field(account: AccountInfo) -> Pubkey;

/// Relies on `Pubkey::to_bytes`: the address as its 32 raw bytes.
pub assume_specification[ Pubkey::to_bytes ](key: Pubkey) -> (r: [u8; 32])
    ensures
        r@ == address_of(key),
;

/// Reads the `key` field of an account handed in by the host.
#[verifier::external_body]
pub(crate) fn account_key(account: &AccountInfo) -> (r: Pubkey)
    ensures
        r == key_field(*account),
{
    *account.key
}

/// Reads the `owner` field of an account handed in by the host.
#[verifier::external_body]
pub(crate) fn account_owner(account: &AccountInfo) -> (r: Pubkey)
    ensures
        r == owner_field(*account),
{
    *account.owner
}

/// Relies on `log::sol_log`: writes a trace line to the host's program log.
#[verifier::external_body]
pub(crate) fn trace(message: &str) {
    solana_program::log::sol_log(message)
}

/// Relies on `system_instruction::transfer`: builds the system program's
/// instruction moving `lamports` from `from` to `to`.
#[verifier::external_body]
pub(crate) fn transfer_instruction(from: &AccountInfo, to: &AccountInfo, lamports: u64) -> Instruction {
    solana_program::system_instruction::transfer(from.key, to.key, lamports)
}

/// Relies on `program::invoke`: the host runs the instruction under the
/// signatures of the enclosing transaction. Whether it succeeds depends on the
/// ledger, so nothing is promised of the outcome.
#[verifier::external_body]
pub(crate) fn invoke_under_sender<'a>(
    ix: &Instruction,
    from: &AccountInfo<'a>,
    to: &AccountInfo<'a>,
    system: &AccountInfo<'a>,
) -> Result<(), ProgramError> {
    solana_program::program::invoke(ix, &[from.clone(), to.clone(), system.clone()])
}

/// Relies on `program::invoke_signed`: the host runs the instruction with the
/// derived signature of the seeds `[base, [bump]]`. Whether it succeeds depends
/// on the ledger, so nothing is promised of the outcome.
#[verifier::external_body]
pub(crate) fn invoke_under_seed<'a>(
    ix: &Instruction,
    from: &AccountInfo<'a>,
    to: &AccountInfo<'a>,
    system: &AccountInfo<'a>,
    base: &[u8; 32],
    bump: u8,
) -> Result<(), ProgramError> {
    solana_program::program::invoke_signed(
        ix,
        &[from.clone(), to.clone(), system.clone()],
        &[&[&base[..], &[bump]]],
    )
}

} // verus!
