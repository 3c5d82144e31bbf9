use solana_program::account_info::AccountInfo;
use solana_program::entrypoint::ProgramResult;
use solana_program::instruction::Instruction;
use solana_program::program_error::ProgramError;
use solana_program::program_stubs::{set_syscall_stubs, SyscallStubs};
use solana_program::pubkey::Pubkey;
use wager_escrow::processor::process_instruction;

const FEE_RESERVE: u64 = 5_000;

/// A host whose system program moves lamports between the accounts handed in.
/// A debit is accepted from a signer, or from the account whose address opens
/// the presented derivation seeds.
struct TestHost;

impl SyscallStubs for TestHost {
    fn sol_invoke_signed(
        &self,
        ix: &Instruction,
        infos: &[AccountInfo],
        seeds: &[&[&[u8]]],
    ) -> ProgramResult {
        assert_eq!(ix.data[0..4], [2, 0, 0, 0]);
        let mut amount = [0u8; 8];
        amount.copy_from_slice(&ix.data[4..12]);
        let lamports = u64::from_le_bytes(amount);
        let find = |k: &Pubkey| infos.iter().find(|a| a.key == k).unwrap();
        let from = find(&ix.accounts[0].pubkey);
        let to = find(&ix.accounts[1].pubkey);
        let derived = seeds.iter().any(|s| s.len() == 2 && s[0] == from.key.as_ref() && s[1] == [255]);
        if !from.is_signer && !derived {
            return Err(ProgramError::MissingRequiredSignature);
        }
        if from.lamports() < lamports {
            return Err(ProgramError::InsufficientFunds);
        }
        **from.try_borrow_mut_lamports()? -= lamports;
        **to.try_borrow_mut_lamports()? += lamports;
        Ok(())
    }
}

fn install_host() {
    set_syscall_stubs(Box::new(TestHost));
}

struct Keys {
    program: Pubkey,
    custody: Pubkey,
    p1: Pubkey,
    p2: Pubkey,
    system: Pubkey,
    winner: Pubkey,
}

fn keys() -> Keys {
    Keys {
        program: Pubkey::new_from_array([1; 32]),
        custody: Pubkey::new_from_array([2; 32]),
        p1: Pubkey::new_from_array([3; 32]),
        p2: Pubkey::new_from_array([4; 32]),
        system: solana_program::system_program::id(),
        winner: Pubkey::new_from_array([6; 32]),
    }
}

/// Runs one invocation over accounts with the given balances, in the order
/// custody, player 1, player 2, system program, and then `extra` if given;
/// returns the result and the balances afterwards.
fn run(
    k: &Keys,
    custody_owner: &Pubkey,
    balances: [u64; 4],
    extra: Option<(&Pubkey, u64)>,
    data: &[u8],
) -> (ProgramResult, Vec<u64>) {
    install_host();
    let [mut c, mut a, mut b, mut s] = balances;
    let mut x = extra.map(|e| e.1).unwrap_or(0);
    let (mut d0, mut d1, mut d2, mut d3, mut d4) = ([0u8; 0], [0u8; 0], [0u8; 0], [0u8; 0], [0u8; 0]);
    let other = Pubkey::new_from_array([7; 32]);
    let mut infos = vec![
        AccountInfo::new(&k.custody, false, true, &mut c, &mut d0, custody_owner, false, 0),
        AccountInfo::new(&k.p1, true, true, &mut a, &mut d1, &other, false, 0),
        AccountInfo::new(&k.p2, true, true, &mut b, &mut d2, &other, false, 0),
        AccountInfo::new(&k.system, false, false, &mut s, &mut d3, &other, true, 0),
    ];
    if let Some((key, _)) = extra {
        infos.push(AccountInfo::new(key, false, true, &mut x, &mut d4, &other, false, 0));
    }
    let r = process_instruction(&k.program, &infos, data);
    let after = infos.iter().map(|i| i.lamports()).collect();
    (r, after)
}

#[test]
fn initialize_then_payout_to_player_one() {
    let k = keys();
    let start = 100_000_000 + FEE_RESERVE;
    let (r, after) = run(&k, &k.program, [0, start, start, 1], None, &[0]);
    assert_eq!(r, Ok(()));
    assert_eq!(after, vec![200_000_000, FEE_RESERVE, FEE_RESERVE, 1]);

    let (r, after) = run(
        &k,
        &k.program,
        [after[0], after[1], after[2], after[3]],
        Some((&k.p1, after[1])),
        &[1],
    );
    assert_eq!(r, Ok(()));
    assert_eq!(after[0], 0);
    assert_eq!(after[4], FEE_RESERVE + 200_000_000);
}

#[test]
fn initialize_debits_each_player_once() {
    let k = keys();
    let (r, after) = run(&k, &k.program, [7, 300_000_000, 150_000_000, 1], None, &[0, 9]);
    assert_eq!(r, Ok(()));
    assert_eq!(after, vec![200_000_007, 200_000_000, 50_000_000, 1]);
}

#[test]
fn initialize_with_foreign_owner_moves_nothing() {
    let k = keys();
    let stranger = Pubkey::new_from_array([9; 32]);
    let (r, after) = run(&k, &stranger, [0, 500_000_000, 500_000_000, 1], None, &[0]);
    assert_eq!(r, Err(ProgramError::IncorrectProgramId));
    assert_eq!(after, vec![0, 500_000_000, 500_000_000, 1]);
}

#[test]
fn payout_of_exact_pot_empties_custody() {
    let k = keys();
    let (r, after) =
        run(&k, &k.program, [200_000_000, 1, 1, 1], Some((&k.winner, 42)), &[1]);
    assert_eq!(r, Ok(()));
    assert_eq!(after, vec![0, 1, 1, 1, 200_000_042]);
}

#[test]
fn payout_from_short_custody_fails() {
    let k = keys();
    let (r, after) =
        run(&k, &k.program, [199_999_999, 1, 1, 1], Some((&k.winner, 0)), &[1]);
    assert_eq!(r, Err(ProgramError::InsufficientFunds));
    assert_eq!(after, vec![199_999_999, 1, 1, 1, 0]);
}

#[test]
fn unknown_opcode_changes_no_balance() {
    let k = keys();
    let (r, after) = run(&k, &k.program, [5, 500_000_000, 500_000_000, 1], Some((&k.winner, 3)), &[2]);
    assert_eq!(r, Err(ProgramError::InvalidInstructionData));
    assert_eq!(after, vec![5, 500_000_000, 500_000_000, 1, 3]);
}

#[test]
fn payout_without_winner_account_is_missing_a_key() {
    let k = keys();
    let (r, after) = run(&k, &k.program, [200_000_000, 1, 1, 1], None, &[1]);
    assert_eq!(r, Err(ProgramError::NotEnoughAccountKeys));
    assert_eq!(after, vec![200_000_000, 1, 1, 1]);
}

#[test]
fn too_few_accounts_are_rejected() {
    install_host();
    let k = keys();
    let mut c = 0u64;
    let mut d = [0u8; 0];
    let infos = vec![AccountInfo::new(&k.custody, false, true, &mut c, &mut d, &k.program, false, 0)];
    assert_eq!(process_instruction(&k.program, &infos, &[0]), Err(ProgramError::NotEnoughAccountKeys));
}

/// Payout binds the winner to nothing: a stranger named as winner, with no
/// Initialize before, drains whatever custody holds from an earlier game.
#[test]
fn payout_to_any_named_winner_drains_custody() {
    let k = keys();
    let attacker = Pubkey::new_from_array([66; 32]);
    let (r, after) =
        run(&k, &k.program, [250_000_000, 1, 1, 1], Some((&attacker, 0)), &[1]);
    assert_eq!(r, Ok(()));
    assert_eq!(after, vec![50_000_000, 1, 1, 1, 200_000_000]);
}
