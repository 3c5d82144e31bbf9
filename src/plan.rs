use crate::address::Address;
use crate::instruction::EscrowInstruction;
use solana_program::program_error::ProgramError;
use vstd::prelude::*;

verus! {

/// Stake each player pays into custody, in minor units.
pub const ENTRY_FEE: u64 = 100_000_000;

/// Amount released to the winner: both stakes together.
pub const TOTAL_POT: u64 = 200_000_000;

/// Suffix byte appended to the custody address to form the derivation seed.
pub const CUSTODY_BUMP: u8 = 255;

/// Positions in the account list.
pub const CUSTODY: usize = 0;
pub const PLAYER_ONE: usize = 1;
pub const PLAYER_TWO: usize = 2;
pub const SYSTEM_PROGRAM: usize = 3;
pub const WINNER: usize = 4;

/// What the escrow reads of an account handed to it.
#[derive(Clone, Copy, Debug)]
pub struct AccountRecord {
    pub key: Address,
    pub owner: Address,
}

/// How a transfer's debit is authorised.
#[derive(Clone, Copy, Debug)]
pub enum Authority {
    /// The sending account signed the enclosing transaction.
    Sender,
    /// The escrow signs with the derivation seeds `[base, [bump]]`.
    Derived { base: Address, bump: u8 },
}

/// One native transfer, with accounts given by their position in the list.
#[derive(Clone, Copy, Debug)]
pub struct Transfer {
    pub from: usize,
    pub to: usize,
    pub lamports: u64,
    pub authority: Authority,
}

/// A stake moving from a player's position into custody.
pub open spec fn stake_from(player: usize) -> Transfer {
    Transfer { from: player, to: CUSTODY, lamports: ENTRY_FEE, authority: Authority::Sender }
}

/// The pot moving from custody to the winner, signed by the custody derivation.
pub open spec fn pot_to_winner(custody: Address) -> Transfer {
    Transfer {
        from: CUSTODY,
        to: WINNER,
        lamports: TOTAL_POT,
        authority: Authority::Derived { base: custody, bump: CUSTODY_BUMP },
    }
}

/// The transfers an invocation issues, in order, or the error it stops with.
/// The first four accounts are required before the opcode is read; a payout
/// needs a fifth, the winner.
pub open spec fn planned(
    program_id: Seq<u8>,
    accounts: Seq<AccountRecord>,
    data: Seq<u8>,
) -> Result<Seq<Transfer>, ProgramError> {
    if accounts.len() < 4 {
        Err(ProgramError::NotEnoughAccountKeys)
    } else {
        match EscrowInstruction::decode(data) {
            Err(e) => Err(e),
            Ok(EscrowInstruction::Initialize) => {
                if accounts[CUSTODY as int].owner@ != program_id {
                    Err(ProgramError::IncorrectProgramId)
                } else {
                    Ok(seq![stake_from(PLAYER_ONE), stake_from(PLAYER_TWO)])
                }
            },
            Ok(EscrowInstruction::Payout) => {
                if accounts.len() < 5 {
                    Err(ProgramError::NotEnoughAccountKeys)
                } else {
                    Ok(seq![pot_to_winner(accounts[CUSTODY as int].key)])
                }
            },
        }
    }
}

/// Routes an invocation and returns the transfers to perform, or the error
/// that rejects it before any transfer.
pub fn plan_instruction(program_id: &Address, accounts: &[AccountRecord], data: &[u8]) -> (r:
    Result<Vec<Transfer>, ProgramError>)
    ensures
        match r {
            Ok(ts) => planned(program_id@, accounts@, data@) == Ok::<Seq<Transfer>, ProgramError>(
                ts@,
            ),
            Err(e) => planned(program_id@, accounts@, data@) == Err::<Seq<Transfer>, ProgramError>(
                e,
            ),
        },
{
    if accounts.len() < 4 {
        return Err(ProgramError::NotEnoughAccountKeys);
    }
    let custody = accounts[CUSTODY];
    match EscrowInstruction::unpack(data) {
        Err(e) => Err(e),
        Ok(EscrowInstruction::Initialize) => {
            if !custody.owner.same_as(program_id) {
                return Err(ProgramError::IncorrectProgramId);
            }
            let mut ts: Vec<Transfer> = Vec::new();
            ts.push(
                Transfer {
                    from: PLAYER_ONE,
                    to: CUSTODY,
                    lamports: ENTRY_FEE,
                    authority: Authority::Sender,
                },
            );
            ts.push(
                Transfer {
                    from: PLAYER_TWO,
                    to: CUSTODY,
                    lamports: ENTRY_FEE,
                    authority: Authority::Sender,
                },
            );
            assert(ts@ =~= seq![stake_from(PLAYER_ONE), stake_from(PLAYER_TWO)]);
            Ok(ts)
        },
        Ok(EscrowInstruction::Payout) => {
            if accounts.len() < 5 {
                return Err(ProgramError::NotEnoughAccountKeys);
            }
            let mut ts: Vec<Transfer> = Vec::new();
            ts.push(
                Transfer {
                    from: CUSTODY,
                    to: WINNER,
                    lamports: TOTAL_POT,
                    authority: Authority::Derived { base: custody.key, bump: CUSTODY_BUMP },
                },
            );
            assert(ts@ =~= seq![pot_to_winner(custody.key)]);
            Ok(ts)
        },
    }
}

} // verus!
