use crate::instruction::EscrowInstruction;
use crate::plan::{
    planned, AccountRecord, Transfer, CUSTODY, ENTRY_FEE, PLAYER_ONE, PLAYER_TWO, TOTAL_POT, WINNER,
};
use solana_program::program_error::ProgramError;
use vstd::prelude::*;

verus! {

// The host's balance ledger, as the escrow relies on it: a map from address
// bytes to balances, the native transfer primitive acting on it, and an
// invocation that either applies all of its transfers or none of them.

/// Why the host's native transfer refuses a debit.
#[derive(Clone, Copy, Debug, PartialEq, Eq, Structural)]
pub enum HostFault {
    /// An address that the ledger does not hold.
    UnknownAccount,
    /// The sender neither signed nor was reproduced by the presented derivation.
    MissingSignature,
    /// The sender holds less than the amount.
    InsufficientFunds,
}

/// Why an invocation fails as a whole.
#[derive(Debug)]
pub enum InvocationError {
    /// The escrow rejected it before issuing any transfer.
    Rejected(ProgramError),
    /// The host refused one of the issued transfers.
    Host(HostFault),
}

/// One native transfer. `authorized` holds the addresses whose debit the host
/// accepts in this invocation: those that signed the enclosing transaction and
/// those that the presented derivation reproduces.
pub open spec fn host_transfer(
    ledger: Map<Seq<u8>, nat>,
    authorized: Set<Seq<u8>>,
    from: Seq<u8>,
    to: Seq<u8>,
    lamports: nat,
) -> Result<Map<Seq<u8>, nat>, HostFault> {
    if !ledger.contains_key(from) || !ledger.contains_key(to) {
        Err(HostFault::UnknownAccount)
    } else if !authorized.contains(from) {
        Err(HostFault::MissingSignature)
    } else if ledger[from] < lamports {
        Err(HostFault::InsufficientFunds)
    } else {
        let debited = ledger.insert(from, (ledger[from] - lamports) as nat);
        Ok(debited.insert(to, debited[to] + lamports))
    }
}

/// The addresses of the account list, by position.
pub open spec fn keys_of(accounts: Seq<AccountRecord>) -> Seq<Seq<u8>> {
    accounts.map_values(|a: AccountRecord| a.key@)
}

/// Applies transfers in order; the first refusal fails the whole sequence.
pub open spec fn settle(
    ledger: Map<Seq<u8>, nat>,
    authorized: Set<Seq<u8>>,
    keys: Seq<Seq<u8>>,
    transfers: Seq<Transfer>,
) -> Result<Map<Seq<u8>, nat>, HostFault>
    decreases transfers.len(),
{
    if transfers.len() == 0 {
        Ok(ledger)
    } else {
        let t = transfers[0];
        match host_transfer(ledger, authorized, keys[t.from as int], keys[t.to as int], t.lamports as nat) {
            Err(f) => Err(f),
            Ok(next) => settle(next, authorized, keys, transfers.drop_first()),
        }
    }
}

/// The ledger after an invocation of the escrow, or why it failed. A failed
/// invocation leaves the ledger as it was.
pub open spec fn invocation(
    program_id: Seq<u8>,
    accounts: Seq<AccountRecord>,
    data: Seq<u8>,
    ledger: Map<Seq<u8>, nat>,
    authorized: Set<Seq<u8>>,
) -> Result<Map<Seq<u8>, nat>, InvocationError> {
    match planned(program_id, accounts, data) {
        Err(e) => Err(InvocationError::Rejected(e)),
        Ok(transfers) => match settle(ledger, authorized, keys_of(accounts), transfers) {
            Err(f) => Err(InvocationError::Host(f)),
            Ok(after) => Ok(after),
        },
    }
}

/// `after` differs from `before` only at `a` and `b`, and holds the same addresses.
pub open spec fn same_elsewhere(
    before: Map<Seq<u8>, nat>,
    after: Map<Seq<u8>, nat>,
    a: Seq<u8>,
    b: Seq<u8>,
) -> bool {
    &&& after.dom() == before.dom()
    &&& forall|k: Seq<u8>| before.contains_key(k) && k != a && k != b ==> after[k] == before[k]
}

/// A valid Initialize, with both players authorised and holding at least a
/// stake, raises custody by exactly the pot and lowers each player by exactly
/// one stake; no other balance moves.
pub proof fn initialize_collects_both_stakes(
    program_id: Seq<u8>,
    accounts: Seq<AccountRecord>,
    data: Seq<u8>,
    ledger: Map<Seq<u8>, nat>,
    authorized: Set<Seq<u8>>,
)
    requires
        accounts.len() >= 4,
        EscrowInstruction::decode(data) == Ok::<EscrowInstruction, ProgramError>(
            EscrowInstruction::Initialize,
        ),
        accounts[CUSTODY as int].owner@ == program_id,
        accounts[CUSTODY as int].key@ != accounts[PLAYER_ONE as int].key@,
        accounts[CUSTODY as int].key@ != accounts[PLAYER_TWO as int].key@,
        accounts[PLAYER_ONE as int].key@ != accounts[PLAYER_TWO as int].key@,
        ledger.contains_key(accounts[CUSTODY as int].key@),
        ledger.contains_key(accounts[PLAYER_ONE as int].key@),
        ledger.contains_key(accounts[PLAYER_TWO as int].key@),
        authorized.contains(accounts[PLAYER_ONE as int].key@),
        authorized.contains(accounts[PLAYER_TWO as int].key@),
        ledger[accounts[PLAYER_ONE as int].key@] >= ENTRY_FEE,
        ledger[accounts[PLAYER_TWO as int].key@] >= ENTRY_FEE,
    ensures
        ({
            let c = accounts[CUSTODY as int].key@;
            let p1 = accounts[PLAYER_ONE as int].key@;
            let p2 = accounts[PLAYER_TWO as int].key@;
            match invocation(program_id, accounts, data, ledger, authorized) {
                Ok(after) => {
                    &&& after[c] == ledger[c] + TOTAL_POT
                    &&& after[p1] == ledger[p1] - ENTRY_FEE
                    &&& after[p2] == ledger[p2] - ENTRY_FEE
                    &&& after.dom() == ledger.dom()
                    &&& forall|k: Seq<u8>|
                        ledger.contains_key(k) && k != c && k != p1 && k != p2 ==> after[k]
                            == ledger[k]
                },
                Err(_) => false,
            }
        }),
{
    let keys = keys_of(accounts);
    let ts = seq![crate::plan::stake_from(PLAYER_ONE), crate::plan::stake_from(PLAYER_TWO)];
    assert(planned(program_id, accounts, data) == Ok::<Seq<Transfer>, ProgramError>(ts));
    assert(keys[0] == accounts[CUSTODY as int].key@);
    assert(keys[1] == accounts[PLAYER_ONE as int].key@);
    assert(keys[2] == accounts[PLAYER_TWO as int].key@);
    let c = keys[0];
    let p1 = keys[1];
    let p2 = keys[2];
    let d1 = ledger.insert(p1, (ledger[p1] - ENTRY_FEE) as nat);
    let l1 = d1.insert(c, d1[c] + ENTRY_FEE as nat);
    assert(host_transfer(ledger, authorized, p1, c, ENTRY_FEE as nat) == Ok::<
        Map<Seq<u8>, nat>,
        HostFault,
    >(l1));
    let d2 = l1.insert(p2, (l1[p2] - ENTRY_FEE) as nat);
    let l2 = d2.insert(c, d2[c] + ENTRY_FEE as nat);
    assert(host_transfer(l1, authorized, p2, c, ENTRY_FEE as nat) == Ok::<
        Map<Seq<u8>, nat>,
        HostFault,
    >(l2));
    assert(ts.drop_first().drop_first().len() == 0);
    assert(settle(l2, authorized, keys, ts.drop_first().drop_first()) == Ok::<
        Map<Seq<u8>, nat>,
        HostFault,
    >(l2));
    assert(settle(l1, authorized, keys, ts.drop_first()) == Ok::<Map<Seq<u8>, nat>, HostFault>(l2));
    assert(settle(ledger, authorized, keys, ts) == Ok::<Map<Seq<u8>, nat>, HostFault>(l2));
    assert(l2.dom() =~= ledger.dom());
}

/// Initialize against a custody account that this program does not own is
/// rejected with an ownership error before any transfer, whatever the ledger.
pub proof fn initialize_rejects_foreign_custody(
    program_id: Seq<u8>,
    accounts: Seq<AccountRecord>,
    data: Seq<u8>,
    ledger: Map<Seq<u8>, nat>,
    authorized: Set<Seq<u8>>,
)
    requires
        accounts.len() >= 4,
        EscrowInstruction::decode(data) == Ok::<EscrowInstruction, ProgramError>(
            EscrowInstruction::Initialize,
        ),
        accounts[CUSTODY as int].owner@ != program_id,
    ensures
        planned(program_id, accounts, data) == Err::<Seq<Transfer>, ProgramError>(
            ProgramError::IncorrectProgramId,
        ),
        invocation(program_id, accounts, data, ledger, authorized) matches Err(
            InvocationError::Rejected(ProgramError::IncorrectProgramId),
        ),
{
}

/// Payout needs nothing of the players: from an authorised custody account
/// holding at least the pot, it moves the pot to whichever account is named
/// as winner, whether or not an Initialize ran or the players signed; no other
/// balance moves.
pub proof fn payout_moves_pot_to_any_winner(
    program_id: Seq<u8>,
    accounts: Seq<AccountRecord>,
    data: Seq<u8>,
    ledger: Map<Seq<u8>, nat>,
    authorized: Set<Seq<u8>>,
)
    requires
        accounts.len() >= 5,
        EscrowInstruction::decode(data) == Ok::<EscrowInstruction, ProgramError>(
            EscrowInstruction::Payout,
        ),
        accounts[CUSTODY as int].key@ != accounts[WINNER as int].key@,
        ledger.contains_key(accounts[CUSTODY as int].key@),
        ledger.contains_key(accounts[WINNER as int].key@),
        authorized.contains(accounts[CUSTODY as int].key@),
        ledger[accounts[CUSTODY as int].key@] >= TOTAL_POT,
    ensures
        ({
            let c = accounts[CUSTODY as int].key@;
            let w = accounts[WINNER as int].key@;
            match invocation(program_id, accounts, data, ledger, authorized) {
                Ok(after) => {
                    &&& after[c] == ledger[c] - TOTAL_POT
                    &&& after[w] == ledger[w] + TOTAL_POT
                    &&& same_elsewhere(ledger, after, c, w)
                },
                Err(_) => false,
            }
        }),
{
    let keys = keys_of(accounts);
    let ts = seq![crate::plan::pot_to_winner(accounts[CUSTODY as int].key)];
    assert(planned(program_id, accounts, data) == Ok::<Seq<Transfer>, ProgramError>(ts));
    assert(keys[0] == accounts[CUSTODY as int].key@);
    assert(keys[4] == accounts[WINNER as int].key@);
    let c = keys[0];
    let w = keys[4];
    let d = ledger.insert(c, (ledger[c] - TOTAL_POT) as nat);
    let l = d.insert(w, d[w] + TOTAL_POT as nat);
    assert(host_transfer(ledger, authorized, c, w, TOTAL_POT as nat) == Ok::<
        Map<Seq<u8>, nat>,
        HostFault,
    >(l));
    assert(ts.drop_first().len() == 0);
    assert(settle(l, authorized, keys, ts.drop_first()) == Ok::<Map<Seq<u8>, nat>, HostFault>(l));
    assert(settle(ledger, authorized, keys, ts) == Ok::<Map<Seq<u8>, nat>, HostFault>(l));
    assert(l.dom() =~= ledger.dom());
}

/// Payout from a custody account holding exactly the pot moves all of it to
/// the winner and leaves custody empty; no other balance moves.
pub proof fn payout_releases_the_pot(
    program_id: Seq<u8>,
    accounts: Seq<AccountRecord>,
    data: Seq<u8>,
    ledger: Map<Seq<u8>, nat>,
    authorized: Set<Seq<u8>>,
)
    requires
        accounts.len() >= 5,
        EscrowInstruction::decode(data) == Ok::<EscrowInstruction, ProgramError>(
            EscrowInstruction::Payout,
        ),
        accounts[CUSTODY as int].key@ != accounts[WINNER as int].key@,
        ledger.contains_key(accounts[CUSTODY as int].key@),
        ledger.contains_key(accounts[WINNER as int].key@),
        authorized.contains(accounts[CUSTODY as int].key@),
        ledger[accounts[CUSTODY as int].key@] == TOTAL_POT,
    ensures
        ({
            let c = accounts[CUSTODY as int].key@;
            let w = accounts[WINNER as int].key@;
            match invocation(program_id, accounts, data, ledger, authorized) {
                Ok(after) => {
                    &&& after[c] == 0
                    &&& after[w] == ledger[w] + TOTAL_POT
                    &&& same_elsewhere(ledger, after, c, w)
                },
                Err(_) => false,
            }
        }),
{
    payout_moves_pot_to_any_winner(program_id, accounts, data, ledger, authorized);
}

/// Payout from an authorised custody account holding less than the pot fails
/// with the host's insufficient-funds refusal.
pub proof fn payout_fails_on_short_custody(
    program_id: Seq<u8>,
    accounts: Seq<AccountRecord>,
    data: Seq<u8>,
    ledger: Map<Seq<u8>, nat>,
    authorized: Set<Seq<u8>>,
)
    requires
        accounts.len() >= 5,
        EscrowInstruction::decode(data) == Ok::<EscrowInstruction, ProgramError>(
            EscrowInstruction::Payout,
        ),
        ledger.contains_key(accounts[CUSTODY as int].key@),
        ledger.contains_key(accounts[WINNER as int].key@),
        authorized.contains(accounts[CUSTODY as int].key@),
        ledger[accounts[CUSTODY as int].key@] < TOTAL_POT,
    ensures
        invocation(program_id, accounts, data, ledger, authorized) matches Err(
            InvocationError::Host(HostFault::InsufficientFunds),
        ),
{
    let keys = keys_of(accounts);
    let ts = seq![crate::plan::pot_to_winner(accounts[CUSTODY as int].key)];
    assert(planned(program_id, accounts, data) == Ok::<Seq<Transfer>, ProgramError>(ts));
    assert(keys[0] == accounts[CUSTODY as int].key@);
    assert(keys[4] == accounts[WINNER as int].key@);
    assert(settle(ledger, authorized, keys, ts) == Err::<Map<Seq<u8>, nat>, HostFault>(
        HostFault::InsufficientFunds,
    ));
}

/// An opcode other than 0 or 1, with the four fixed accounts present, is
/// rejected as invalid data before any transfer, whatever the ledger.
pub proof fn unknown_opcode_changes_nothing(
    program_id: Seq<u8>,
    accounts: Seq<AccountRecord>,
    data: Seq<u8>,
    ledger: Map<Seq<u8>, nat>,
    authorized: Set<Seq<u8>>,
)
    requires
        accounts.len() >= 4,
        data.len() > 0,
        data[0] > 1,
    ensures
        planned(program_id, accounts, data) == Err::<Seq<Transfer>, ProgramError>(
            ProgramError::InvalidInstructionData,
        ),
        invocation(program_id, accounts, data, ledger, authorized) matches Err(
            InvocationError::Rejected(ProgramError::InvalidInstructionData),
        ),
{
}

} // verus!
