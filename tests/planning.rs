use solana_program::program_error::ProgramError;
use wager_escrow::instruction::EscrowInstruction;
use wager_escrow::plan::{
    plan_instruction, AccountRecord, Authority, CUSTODY, CUSTODY_BUMP, ENTRY_FEE, PLAYER_ONE,
    PLAYER_TWO, TOTAL_POT, WINNER,
};
use wager_escrow::Address;

fn addr(b: u8) -> Address {
    Address::new([b; 32])
}

fn records(program: u8, custody_owner: u8, n: usize) -> (Address, Vec<AccountRecord>) {
    let mut accounts = Vec::new();
    for i in 0..n {
        let owner = if i == 0 { custody_owner } else { 200 };
        accounts.push(AccountRecord { key: addr(10 + i as u8), owner: addr(owner) });
    }
    (addr(program), accounts)
}

#[test]
fn unpack_reads_opcodes() {
    assert_eq!(EscrowInstruction::unpack(&[0]), Ok(EscrowInstruction::Initialize));
    assert_eq!(EscrowInstruction::unpack(&[1, 7, 7]), Ok(EscrowInstruction::Payout));
    assert_eq!(EscrowInstruction::unpack(&[2]), Err(ProgramError::InvalidInstructionData));
    assert_eq!(EscrowInstruction::unpack(&[255]), Err(ProgramError::InvalidInstructionData));
    assert_eq!(EscrowInstruction::unpack(&[]), Err(ProgramError::InvalidInstructionData));
}

#[test]
fn address_equality_is_bytewise() {
    let a = addr(3);
    let mut bytes = [3u8; 32];
    assert!(a.same_as(&Address::new(bytes)));
    bytes[31] = 4;
    assert!(!a.same_as(&Address::new(bytes)));
}

#[test]
fn initialize_plans_two_stakes() {
    let (program, accounts) = records(1, 1, 4);
    let ts = plan_instruction(&program, &accounts, &[0]).unwrap();
    assert_eq!(ts.len(), 2);
    assert_eq!((ts[0].from, ts[0].to, ts[0].lamports), (PLAYER_ONE, CUSTODY, ENTRY_FEE));
    assert_eq!((ts[1].from, ts[1].to, ts[1].lamports), (PLAYER_TWO, CUSTODY, ENTRY_FEE));
    assert!(matches!(ts[0].authority, Authority::Sender));
    assert!(matches!(ts[1].authority, Authority::Sender));
    assert_eq!(ENTRY_FEE, 100_000_000);
}

#[test]
fn initialize_rejects_unowned_custody() {
    let (program, accounts) = records(1, 9, 4);
    let r = plan_instruction(&program, &accounts, &[0]);
    assert_eq!(r.unwrap_err(), ProgramError::IncorrectProgramId);
}

#[test]
fn payout_plans_pot_under_custody_seed() {
    let (program, accounts) = records(1, 1, 5);
    let ts = plan_instruction(&program, &accounts, &[1]).unwrap();
    assert_eq!(ts.len(), 1);
    assert_eq!((ts[0].from, ts[0].to, ts[0].lamports), (CUSTODY, WINNER, TOTAL_POT));
    assert_eq!(TOTAL_POT, 200_000_000);
    match ts[0].authority {
        Authority::Derived { base, bump } => {
            assert!(base.same_as(&accounts[CUSTODY].key));
            assert_eq!(bump, CUSTODY_BUMP);
            assert_eq!(bump, 255);
        }
        Authority::Sender => panic!("payout must be signed by the custody derivation"),
    }
}

#[test]
fn payout_ignores_custody_owner() {
    let (program, accounts) = records(1, 9, 5);
    assert_eq!(plan_instruction(&program, &accounts, &[1]).unwrap().len(), 1);
}

#[test]
fn unknown_opcode_plans_nothing() {
    let (program, accounts) = records(1, 1, 5);
    let r = plan_instruction(&program, &accounts, &[2]);
    assert_eq!(r.unwrap_err(), ProgramError::InvalidInstructionData);
    let r = plan_instruction(&program, &accounts, &[]);
    assert_eq!(r.unwrap_err(), ProgramError::InvalidInstructionData);
}

#[test]
fn missing_accounts_are_reported_first() {
    let (program, accounts) = records(1, 1, 3);
    assert_eq!(
        plan_instruction(&program, &accounts, &[2]).unwrap_err(),
        ProgramError::NotEnoughAccountKeys
    );
    let (program, accounts) = records(1, 1, 4);
    assert_eq!(
        plan_instruction(&program, &accounts, &[1]).unwrap_err(),
        ProgramError::NotEnoughAccountKeys
    );
}
