//! The instruction processor: the dispatcher and the three transition
//! handlers. Each handler is a pure decision over a snapshot of the supplied
//! accounts: it validates the call — re-derives every address from the
//! stored record fields, checks token-account ownership and mint identity,
//! checks the phase — and either reports the one rejection cause or returns
//! the effects for the host to perform: which accounts to create, which
//! transfer to make, and the new record image to persist.

use vstd::prelude::*;
use crate::{Key, key_eq};
use crate::derive::{SeedTag, spec_derive, spec_find_bump, derive_address, find_bump};
use crate::error::EscrowError;
use crate::instruction::{EscrowInstruction, spec_deserialize_instruction};
use crate::rent::{spec_rent_minimum_balance, rent_minimum_balance};
use crate::state::{EscrowData, EscrowState, spec_deserialize_record, spec_serialize_record};
use crate::token::{spec_token_account_ok, unpack_token_account};

verus! {

broadcast use vstd::array::group_array_axioms;

/// Serialized size of a token account under the token program.
pub const TOKEN_ACCOUNT_LEN: usize = 165;

/// A snapshot of one host account as the handlers consult it: its address,
/// the program that owns it, its balance, and its data bytes.
#[derive(Clone, Debug, PartialEq, Eq)]
pub struct AccountView {
    pub key: Key,
    pub owner: Key,
    pub lamports: u64,
    pub data: Vec<u8>,
}

/// One token transfer for the host to perform.
#[derive(Clone, Copy, Debug, PartialEq, Eq)]
pub struct TransferAction {
    pub source: Key,
    pub destination: Key,
    pub authority: Key,
    pub amount: u64,
}

/// One account allocation for the host to perform.
#[derive(Clone, Copy, Debug, PartialEq, Eq)]
pub struct CreateAccountAction {
    pub funder: Key,
    pub target: Key,
    pub lamports: u64,
    pub space: u64,
    pub owner: Key,
}

/// One token-account initialization for the host to perform.
#[derive(Clone, Copy, Debug, PartialEq, Eq)]
pub struct InitializeVaultAction {
    pub vault: Key,
    pub mint: Key,
    pub authority: Key,
}

/// Everything Init decides: which of the three accounts to create, how to
/// initialize the vaults, and the record to write.
#[derive(Clone, Copy, Debug, PartialEq, Eq)]
pub struct InitPlan {
    pub create_escrow: Option<CreateAccountAction>,
    pub create_vault_x: Option<CreateAccountAction>,
    pub initialize_vault_x: Option<InitializeVaultAction>,
    pub create_vault_y: Option<CreateAccountAction>,
    pub initialize_vault_y: Option<InitializeVaultAction>,
    pub record: EscrowData,
}

/// Everything Deposit or Withdrawal decides: the transfer to make and the
/// record to write.
#[derive(Clone, Copy, Debug, PartialEq, Eq)]
pub struct SettlePlan {
    pub transfer: TransferAction,
    pub record: EscrowData,
}

/// An Init plan together with the serialized record image.
#[derive(Clone, Debug, PartialEq, Eq)]
pub struct InitEffect {
    pub plan: InitPlan,
    pub record_bytes: Vec<u8>,
}

/// A settle plan together with the serialized record image.
#[derive(Clone, Debug, PartialEq, Eq)]
pub struct TransferEffect {
    pub transfer: TransferAction,
    pub record: EscrowData,
    pub record_bytes: Vec<u8>,
}

/// What one dispatched instruction decides.
#[derive(Clone, Copy, Debug, PartialEq, Eq)]
pub enum ProcessPlan {
    Init(InitPlan),
    Deposit(SettlePlan),
    Withdrawal(SettlePlan),
}

/// What one dispatched instruction asks the host to perform.
#[derive(Clone, Debug, PartialEq, Eq)]
pub enum Effect {
    Init(InitEffect),
    Deposit(TransferEffect),
    Withdrawal(TransferEffect),
}

/// The side of the swap a transfer concerns: X is the side party A deposits,
/// Y the side party B deposits.
#[derive(Clone, Copy, Debug, PartialEq, Eq, Structural)]
pub enum Side {
    X,
    Y,
}

/// The lamports Init must move into an account: top the balance up to the
/// rent-exempt minimum (at least one lamport), never below zero.
pub open spec fn spec_required_lamports(min_balance: u64, current: u64) -> u64 {
    let floor = if min_balance < 1 {
        1u64
    } else {
        min_balance
    };
    if floor >= current {
        (floor - current) as u64
    } else {
        0u64
    }
}

fn required_lamports(min_balance: u64, current: u64) -> (r: u64)
    ensures
        r == spec_required_lamports(min_balance, current),
{
    let floor = if min_balance < 1 {
        1
    } else {
        min_balance
    };
    if floor >= current {
        floor - current
    } else {
        0
    }
}

/// The mint bytes of a token account buffer.
pub open spec fn token_mint_bytes(s: Seq<u8>) -> Seq<u8> {
    s.subrange(0, 32)
}

/// The owner bytes of a token account buffer.
pub open spec fn token_owner_bytes(s: Seq<u8>) -> Seq<u8> {
    s.subrange(32, 64)
}

/// How Deposit moves the record on: who may deposit in which state, the new
/// state, and the side the deposit lands on.
pub open spec fn spec_deposit_transition(d: EscrowData, payer: Key) -> Result<
    (EscrowState, Side),
    EscrowError,
> {
    match d.state {
        EscrowState::Initialized => if payer@ == d.pubkey_alice@ {
            Ok((EscrowState::DepositAlice, Side::X))
        } else if payer@ == d.pubkey_bob@ {
            Ok((EscrowState::DepositBob, Side::Y))
        } else {
            Err(EscrowError::NotAParty)
        },
        EscrowState::DepositAlice => if payer@ == d.pubkey_bob@ {
            Ok((EscrowState::Committed, Side::Y))
        } else if payer@ == d.pubkey_alice@ {
            Err(EscrowError::WrongPhase)
        } else {
            Err(EscrowError::NotAParty)
        },
        EscrowState::DepositBob => if payer@ == d.pubkey_alice@ {
            Ok((EscrowState::Committed, Side::X))
        } else if payer@ == d.pubkey_bob@ {
            Err(EscrowError::WrongPhase)
        } else {
            Err(EscrowError::NotAParty)
        },
        _ => if payer@ == d.pubkey_alice@ || payer@ == d.pubkey_bob@ {
            Err(EscrowError::WrongPhase)
        } else {
            Err(EscrowError::NotAParty)
        },
    }
}

/// How Withdrawal moves the record on: withdrawals open only once both
/// deposits are in; party A takes the Y side, party B the X side, and the
/// record returns to `Uninitialized` after both have withdrawn.
pub open spec fn spec_withdraw_transition(d: EscrowData, taker: Key) -> Result<
    (EscrowState, Side),
    EscrowError,
> {
    match d.state {
        EscrowState::Committed => if taker@ == d.pubkey_alice@ {
            Ok((EscrowState::WithdrawAlice, Side::Y))
        } else if taker@ == d.pubkey_bob@ {
            Ok((EscrowState::WithdrawBob, Side::X))
        } else {
            Err(EscrowError::NotAParty)
        },
        EscrowState::WithdrawAlice => if taker@ == d.pubkey_bob@ {
            Ok((EscrowState::Uninitialized, Side::X))
        } else if taker@ == d.pubkey_alice@ {
            Err(EscrowError::WrongPhase)
        } else {
            Err(EscrowError::NotAParty)
        },
        EscrowState::WithdrawBob => if taker@ == d.pubkey_alice@ {
            Ok((EscrowState::Uninitialized, Side::Y))
        } else if taker@ == d.pubkey_bob@ {
            Err(EscrowError::WrongPhase)
        } else {
            Err(EscrowError::NotAParty)
        },
        _ => if taker@ == d.pubkey_alice@ || taker@ == d.pubkey_bob@ {
            Err(EscrowError::WrongPhase)
        } else {
            Err(EscrowError::NotAParty)
        },
    }
}

/// The mint expected on a side, as stored in the record.
pub open spec fn spec_side_mint(d: EscrowData, side: Side) -> Key {
    match side {
        Side::X => d.pubkey_mint_x,
        Side::Y => d.pubkey_mint_y,
    }
}

/// The agreed amount of a side, as stored in the record.
pub open spec fn spec_side_amount(d: EscrowData, side: Side) -> u64 {
    match side {
        Side::X => d.size_x,
        Side::Y => d.size_y,
    }
}

/// The seed tag of a side's vault.
pub open spec fn spec_side_tag(side: Side) -> SeedTag {
    match side {
        Side::X => SeedTag::VaultX,
        Side::Y => SeedTag::VaultY,
    }
}

/// The stored bump of a side's vault.
pub open spec fn spec_side_bump(d: EscrowData, side: Side) -> u8 {
    match side {
        Side::X => d.vault_x_bump,
        Side::Y => d.vault_y_bump,
    }
}

/// The checks every fund-moving handler makes before its transfer, over a
/// record `d` already read from the escrow account: the caller's token
/// account is owned by the token program, unpacks, belongs to the caller,
/// and carries the expected mint; and the vault and escrow addresses
/// re-derived from the stored fields match the supplied accounts.
pub open spec fn spec_validate_settlement(
    program_id: Key,
    d: EscrowData,
    escrow: AccountView,
    caller_token: AccountView,
    vault: AccountView,
    caller: Key,
    token_program: Key,
    pass: [u8; 32],
    side: Side,
) -> Result<(), EscrowError> {
    if caller_token.owner@ != token_program@ {
        Err(EscrowError::NotOwnedByTokenProgram)
    } else if !spec_token_account_ok(caller_token.data@) {
        Err(EscrowError::MalformedTokenAccount)
    } else if token_owner_bytes(caller_token.data@) != caller@ {
        Err(EscrowError::TokenOwnerMismatch)
    } else if token_mint_bytes(caller_token.data@) != spec_side_mint(d, side)@ {
        Err(EscrowError::MintMismatch)
    } else {
        match spec_derive(
            spec_side_tag(side),
            d.pubkey_alice@,
            d.pubkey_bob@,
            d.pubkey_mint_x@,
            d.pubkey_mint_y@,
            pass@,
            spec_side_bump(d, side),
            program_id@,
        ) {
            None => Err(EscrowError::DerivationFailed),
            Some(vk) => if vk != vault.key@ {
                Err(EscrowError::VaultKeyMismatch)
            } else {
                match spec_derive(
                    SeedTag::Escrow,
                    d.pubkey_alice@,
                    d.pubkey_bob@,
                    d.pubkey_mint_x@,
                    d.pubkey_mint_y@,
                    pass@,
                    d.escrow_bump,
                    program_id@,
                ) {
                    None => Err(EscrowError::DerivationFailed),
                    Some(ek) => if ek != escrow.key@ {
                        Err(EscrowError::EscrowKeyMismatch)
                    } else {
                        Ok(())
                    },
                }
            },
        }
    }
}

/// Everything Deposit decides, over the snapshot alone.
pub open spec fn deposit_decision(
    program_id: Key,
    accounts: Seq<AccountView>,
    pass: [u8; 32],
) -> Result<SettlePlan, EscrowError> {
    if accounts.len() < 5 {
        Err(EscrowError::NotEnoughAccounts)
    } else {
        let escrow = accounts[0];
        let payer_token = accounts[1];
        let vault = accounts[2];
        let payer = accounts[3];
        let token_program = accounts[4];
        match spec_deserialize_record(escrow.data@) {
            None => Err(EscrowError::MalformedRecord),
            Some(d) => match spec_deposit_transition(d, payer.key) {
                Err(e) => Err(e),
                Ok((new_state, side)) => match spec_validate_settlement(
                    program_id,
                    d,
                    escrow,
                    payer_token,
                    vault,
                    payer.key,
                    token_program.key,
                    pass,
                    side,
                ) {
                    Err(e) => Err(e),
                    Ok(_) => Ok(
                        SettlePlan {
                            transfer: TransferAction {
                                source: payer_token.key,
                                destination: vault.key,
                                authority: payer.key,
                                amount: spec_side_amount(d, side),
                            },
                            record: EscrowData { state: new_state, ..d },
                        },
                    ),
                },
            },
        }
    }
}

/// Everything Withdrawal decides, over the snapshot alone. The transfer
/// runs out of the side's vault to the caller's token account, authorized
/// by the escrow record's derived address.
pub open spec fn withdraw_decision(
    program_id: Key,
    accounts: Seq<AccountView>,
    pass: [u8; 32],
) -> Result<SettlePlan, EscrowError> {
    if accounts.len() < 5 {
        Err(EscrowError::NotEnoughAccounts)
    } else {
        let escrow = accounts[0];
        let taker_token = accounts[1];
        let vault = accounts[2];
        let taker = accounts[3];
        let token_program = accounts[4];
        match spec_deserialize_record(escrow.data@) {
            None => Err(EscrowError::MalformedRecord),
            Some(d) => match spec_withdraw_transition(d, taker.key) {
                Err(e) => Err(e),
                Ok((new_state, side)) => match spec_validate_settlement(
                    program_id,
                    d,
                    escrow,
                    taker_token,
                    vault,
                    taker.key,
                    token_program.key,
                    pass,
                    side,
                ) {
                    Err(e) => Err(e),
                    Ok(_) => Ok(
                        SettlePlan {
                            transfer: TransferAction {
                                source: vault.key,
                                destination: taker_token.key,
                                authority: escrow.key,
                                amount: spec_side_amount(d, side),
                            },
                            record: EscrowData { state: new_state, ..d },
                        },
                    ),
                },
            },
        }
    }
}

/// The state check Init makes first: the record storage must be empty, or
/// hold a record whose swap has fully unwound.
pub open spec fn spec_init_state_check(escrow_data: Seq<u8>) -> Result<(), EscrowError> {
    if escrow_data.len() == 0 {
        Ok(())
    } else {
        match spec_deserialize_record(escrow_data) {
            None => Err(EscrowError::MalformedRecord),
            Some(d) => if d.state == EscrowState::Uninitialized {
                Ok(())
            } else {
                Err(EscrowError::AlreadyInitialized)
            },
        }
    }
}

/// What Init decides for one derived account: find its bump, insist the
/// supplied account sits at the derived address, and, when its storage is
/// empty, fund and create it.
pub open spec fn provision_decision(
    t: SeedTag,
    alice: Key,
    bob: Key,
    mint_x: Key,
    mint_y: Key,
    pass: [u8; 32],
    program_id: Key,
    target: AccountView,
    rent_data: Seq<u8>,
    funder: Key,
    owner: Key,
    space: usize,
    mismatch: EscrowError,
) -> Result<(u8, Option<CreateAccountAction>), EscrowError> {
    match spec_find_bump(t, alice@, bob@, mint_x@, mint_y@, pass@, program_id@) {
        None => Err(EscrowError::BumpSearchExhausted),
        Some(p) => if p.0 != target.key@ {
            Err(mismatch)
        } else if target.data@.len() == 0 {
            match spec_rent_minimum_balance(rent_data, space as nat) {
                None => Err(EscrowError::MalformedRent),
                Some(mb) => Ok(
                    (
                        p.1,
                        Some(
                            CreateAccountAction {
                                funder,
                                target: target.key,
                                lamports: spec_required_lamports(mb, target.lamports),
                                space: space as u64,
                                owner,
                            },
                        ),
                    ),
                ),
            }
        } else {
            Ok((p.1, None))
        },
    }
}

/// Everything Init decides, over the snapshot alone.
pub open spec fn init_decision(
    program_id: Key,
    accounts: Seq<AccountView>,
    size_x: u64,
    size_y: u64,
    pass: [u8; 32],
) -> Result<InitPlan, EscrowError> {
    if accounts.len() < 11 {
        Err(EscrowError::NotEnoughAccounts)
    } else {
        let escrow = accounts[0];
        let mint_x = accounts[1];
        let mint_y = accounts[2];
        let vault_x = accounts[3];
        let vault_y = accounts[4];
        let payer = accounts[5];
        let alice = accounts[6];
        let bob = accounts[7];
        let token_program = accounts[8];
        let rent = accounts[9];
        match spec_init_state_check(escrow.data@) {
            Err(e) => Err(e),
            Ok(_) => match provision_decision(
                SeedTag::Escrow,
                alice.key,
                bob.key,
                mint_x.key,
                mint_y.key,
                pass,
                program_id,
                escrow,
                rent.data@,
                payer.key,
                program_id,
                148,
                EscrowError::EscrowKeyMismatch,
            ) {
                Err(e) => Err(e),
                Ok(pe) => match provision_decision(
                    SeedTag::VaultX,
                    alice.key,
                    bob.key,
                    mint_x.key,
                    mint_y.key,
                    pass,
                    program_id,
                    vault_x,
                    rent.data@,
                    payer.key,
                    token_program.key,
                    165,
                    EscrowError::VaultKeyMismatch,
                ) {
                    Err(e) => Err(e),
                    Ok(px) => match provision_decision(
                        SeedTag::VaultY,
                        alice.key,
                        bob.key,
                        mint_x.key,
                        mint_y.key,
                        pass,
                        program_id,
                        vault_y,
                        rent.data@,
                        payer.key,
                        token_program.key,
                        165,
                        EscrowError::VaultKeyMismatch,
                    ) {
                        Err(e) => Err(e),
                        Ok(py) => Ok(
                            InitPlan {
                                create_escrow: pe.1,
                                create_vault_x: px.1,
                                initialize_vault_x: (match px.1 {
                                    Some(_) => Some(
                                        InitializeVaultAction {
                                            vault: vault_x.key,
                                            mint: mint_x.key,
                                            authority: escrow.key,
                                        },
                                    ),
                                    None => None,
                                }),
                                create_vault_y: py.1,
                                initialize_vault_y: (match py.1 {
                                    Some(_) => Some(
                                        InitializeVaultAction {
                                            vault: vault_y.key,
                                            mint: mint_y.key,
                                            authority: escrow.key,
                                        },
                                    ),
                                    None => None,
                                }),
                                record: EscrowData {
                                    size_x,
                                    size_y,
                                    pubkey_alice: alice.key,
                                    pubkey_bob: bob.key,
                                    pubkey_mint_x: mint_x.key,
                                    pubkey_mint_y: mint_y.key,
                                    state: EscrowState::Initialized,
                                    escrow_bump: pe.0,
                                    vault_x_bump: px.0,
                                    vault_y_bump: py.0,
                                },
                            },
                        ),
                    },
                },
            },
        }
    }
}

/// What one dispatched instruction decides, over the snapshot alone.
pub open spec fn process_decision(
    program_id: Key,
    accounts: Seq<AccountView>,
    instruction_data: Seq<u8>,
) -> Result<ProcessPlan, EscrowError> {
    match spec_deserialize_instruction(instruction_data) {
        None => Err(EscrowError::MalformedInstruction),
        Some(EscrowInstruction::InitEscrow { amount_x, amount_y, pass }) => match init_decision(
            program_id,
            accounts,
            amount_x,
            amount_y,
            pass,
        ) {
            Ok(p) => Ok(ProcessPlan::Init(p)),
            Err(e) => Err(e),
        },
        Some(EscrowInstruction::Deposit { pass }) => match deposit_decision(
            program_id,
            accounts,
            pass,
        ) {
            Ok(p) => Ok(ProcessPlan::Deposit(p)),
            Err(e) => Err(e),
        },
        Some(EscrowInstruction::Withdrawal { pass }) => match withdraw_decision(
            program_id,
            accounts,
            pass,
        ) {
            Ok(p) => Ok(ProcessPlan::Withdrawal(p)),
            Err(e) => Err(e),
        },
    }
}

fn deposit_transition(d: &EscrowData, payer: &Key) -> (r: Result<(EscrowState, Side), EscrowError>)
    ensures
        r == spec_deposit_transition(*d, *payer),
{
    match d.state {
        EscrowState::Initialized => if key_eq(payer, &d.pubkey_alice) {
            Ok((EscrowState::DepositAlice, Side::X))
        } else if key_eq(payer, &d.pubkey_bob) {
            Ok((EscrowState::DepositBob, Side::Y))
        } else {
            Err(EscrowError::NotAParty)
        },
        EscrowState::DepositAlice => if key_eq(payer, &d.pubkey_bob) {
            Ok((EscrowState::Committed, Side::Y))
        } else if key_eq(payer, &d.pubkey_alice) {
            Err(EscrowError::WrongPhase)
        } else {
            Err(EscrowError::NotAParty)
        },
        EscrowState::DepositBob => if key_eq(payer, &d.pubkey_alice) {
            Ok((EscrowState::Committed, Side::X))
        } else if key_eq(payer, &d.pubkey_bob) {
            Err(EscrowError::WrongPhase)
        } else {
            Err(EscrowError::NotAParty)
        },
        _ => if key_eq(payer, &d.pubkey_alice) || key_eq(payer, &d.pubkey_bob) {
            Err(EscrowError::WrongPhase)
        } else {
            Err(EscrowError::NotAParty)
        },
    }
}

fn withdraw_transition(d: &EscrowData, taker: &Key) -> (r: Result<(EscrowState, Side), EscrowError>)
    ensures
        r == spec_withdraw_transition(*d, *taker),
{
    match d.state {
        EscrowState::Committed => if key_eq(taker, &d.pubkey_alice) {
            Ok((EscrowState::WithdrawAlice, Side::Y))
        } else if key_eq(taker, &d.pubkey_bob) {
            Ok((EscrowState::WithdrawBob, Side::X))
        } else {
            Err(EscrowError::NotAParty)
        },
        EscrowState::WithdrawAlice => if key_eq(taker, &d.pubkey_bob) {
            Ok((EscrowState::Uninitialized, Side::X))
        } else if key_eq(taker, &d.pubkey_alice) {
            Err(EscrowError::WrongPhase)
        } else {
            Err(EscrowError::NotAParty)
        },
        EscrowState::WithdrawBob => if key_eq(taker, &d.pubkey_alice) {
            Ok((EscrowState::Uninitialized, Side::Y))
        } else if key_eq(taker, &d.pubkey_bob) {
            Err(EscrowError::WrongPhase)
        } else {
            Err(EscrowError::NotAParty)
        },
        _ => if key_eq(taker, &d.pubkey_alice) || key_eq(taker, &d.pubkey_bob) {
            Err(EscrowError::WrongPhase)
        } else {
            Err(EscrowError::NotAParty)
        },
    }
}

fn validate_settlement(
    program_id: &Key,
    d: &EscrowData,
    escrow: &AccountView,
    caller_token: &AccountView,
    vault: &AccountView,
    caller: &Key,
    token_program: &Key,
    pass: &[u8; 32],
    side: Side,
) -> (r: Result<(), EscrowError>)
    ensures
        r == spec_validate_settlement(
            *program_id,
            *d,
            *escrow,
            *caller_token,
            *vault,
            *caller,
            *token_program,
            *pass,
            side,
        ),
{
    if !key_eq(&caller_token.owner, token_program) {
        return Err(EscrowError::NotOwnedByTokenProgram);
    }
    let token = match unpack_token_account(&caller_token.data) {
        None => {
            return Err(EscrowError::MalformedTokenAccount);
        },
        Some(t) => t,
    };
    if !key_eq(&token.owner, caller) {
        return Err(EscrowError::TokenOwnerMismatch);
    }
    let expected_mint = match side {
        Side::X => &d.pubkey_mint_x,
        Side::Y => &d.pubkey_mint_y,
    };
    if !key_eq(&token.mint, expected_mint) {
        return Err(EscrowError::MintMismatch);
    }
    let tag = match side {
        Side::X => SeedTag::VaultX,
        Side::Y => SeedTag::VaultY,
    };
    let vault_bump = match side {
        Side::X => d.vault_x_bump,
        Side::Y => d.vault_y_bump,
    };
    let vault_key = match derive_address(
        tag,
        &d.pubkey_alice,
        &d.pubkey_bob,
        &d.pubkey_mint_x,
        &d.pubkey_mint_y,
        pass,
        vault_bump,
        program_id,
    ) {
        None => {
            return Err(EscrowError::DerivationFailed);
        },
        Some(k) => k,
    };
    if !key_eq(&vault_key, &vault.key) {
        return Err(EscrowError::VaultKeyMismatch);
    }
    let escrow_key = match derive_address(
        SeedTag::Escrow,
        &d.pubkey_alice,
        &d.pubkey_bob,
        &d.pubkey_mint_x,
        &d.pubkey_mint_y,
        pass,
        d.escrow_bump,
        program_id,
    ) {
        None => {
            return Err(EscrowError::DerivationFailed);
        },
        Some(k) => k,
    };
    if !key_eq(&escrow_key, &escrow.key) {
        return Err(EscrowError::EscrowKeyMismatch);
    }
    Ok(())
}

fn provision(
    t: SeedTag,
    alice: &Key,
    bob: &Key,
    mint_x: &Key,
    mint_y: &Key,
    pass: &[u8; 32],
    program_id: &Key,
    target: &AccountView,
    rent_data: &Vec<u8>,
    funder: &Key,
    owner: &Key,
    space: usize,
    mismatch: EscrowError,
) -> (r: Result<(u8, Option<CreateAccountAction>), EscrowError>)
    ensures
        r == provision_decision(
            t,
            *alice,
            *bob,
            *mint_x,
            *mint_y,
            *pass,
            *program_id,
            *target,
            rent_data@,
            *funder,
            *owner,
            space,
            mismatch,
        ),
{
    let (derived, bump) = match find_bump(t, alice, bob, mint_x, mint_y, pass, program_id) {
        None => {
            return Err(EscrowError::BumpSearchExhausted);
        },
        Some(p) => p,
    };
    if !key_eq(&derived, &target.key) {
        return Err(mismatch);
    }
    if target.data.len() == 0 {
        let min_balance = match rent_minimum_balance(rent_data, space) {
            None => {
                return Err(EscrowError::MalformedRent);
            },
            Some(mb) => mb,
        };
        Ok(
            (
                bump,
                Some(
                    CreateAccountAction {
                        funder: *funder,
                        target: target.key,
                        lamports: required_lamports(min_balance, target.lamports),
                        space: space as u64,
                        owner: *owner,
                    },
                ),
            ),
        )
    } else {
        Ok((bump, None))
    }
}

/// The instruction processor.
pub struct Processor;

impl Processor {
    /// Decode one instruction and run the matching handler over the account
    /// snapshot.
    pub fn process(program_id: &Key, accounts: &Vec<AccountView>, instruction_data: &[u8]) -> (r:
        Result<Effect, EscrowError>)
        ensures
            (r matches Err(e) ==> process_decision(*program_id, accounts@, instruction_data@)
                == Err::<ProcessPlan, EscrowError>(e)),
            (r matches Ok(eff) ==> (match eff {
                Effect::Init(ie) => process_decision(*program_id, accounts@, instruction_data@)
                    == Ok::<ProcessPlan, EscrowError>(ProcessPlan::Init(ie.plan))
                    && ie.record_bytes@ == spec_serialize_record(ie.plan.record),
                Effect::Deposit(te) => process_decision(*program_id, accounts@, instruction_data@)
                    == Ok::<ProcessPlan, EscrowError>(ProcessPlan::Deposit(
                    (SettlePlan { transfer: te.transfer, record: te.record }),
                )) && te.record_bytes@ == spec_serialize_record(te.record),
                Effect::Withdrawal(te) => process_decision(
                    *program_id,
                    accounts@,
                    instruction_data@,
                ) == Ok::<ProcessPlan, EscrowError>(ProcessPlan::Withdrawal(
                    (SettlePlan { transfer: te.transfer, record: te.record }),
                )) && te.record_bytes@ == spec_serialize_record(te.record),
            })),
    {
        let instruction = match EscrowInstruction::try_from_slice(instruction_data) {
            None => {
                return Err(EscrowError::MalformedInstruction);
            },
            Some(i) => i,
        };
        match instruction {
            EscrowInstruction::InitEscrow { amount_x, amount_y, pass } => {
                match Self::process_init_escrow(accounts, amount_x, amount_y, &pass, program_id) {
                    Ok(eff) => Ok(Effect::Init(eff)),
                    Err(e) => Err(e),
                }
            },
            EscrowInstruction::Deposit { pass } => {
                match Self::process_deposit(accounts, &pass, program_id) {
                    Ok(eff) => Ok(Effect::Deposit(eff)),
                    Err(e) => Err(e),
                }
            },
            EscrowInstruction::Withdrawal { pass } => {
                match Self::process_withdrawal(accounts, &pass, program_id) {
                    Ok(eff) => Ok(Effect::Withdrawal(eff)),
                    Err(e) => Err(e),
                }
            },
        }
    }

    /// Handle Init: insist the record is unused, re-derive all three addresses,
    /// plan the creations, and write the new record.
    pub fn process_init_escrow(
        accounts: &Vec<AccountView>,
        size_x: u64,
        size_y: u64,
        pass: &[u8; 32],
        program_id: &Key,
    ) -> (r: Result<InitEffect, EscrowError>)
        ensures
            (r matches Err(e) ==> init_decision(*program_id, accounts@, size_x, size_y, *pass)
                == Err::<InitPlan, EscrowError>(e)),
            (r matches Ok(eff) ==> init_decision(*program_id, accounts@, size_x, size_y, *pass)
                == Ok::<InitPlan, EscrowError>(eff.plan) && eff.record_bytes@
                == spec_serialize_record(eff.plan.record)),
    {
        if accounts.len() < 11 {
            return Err(EscrowError::NotEnoughAccounts);
        }
        let escrow = &accounts[0];
        let mint_x = &accounts[1];
        let mint_y = &accounts[2];
        let vault_x = &accounts[3];
        let vault_y = &accounts[4];
        let payer = &accounts[5];
        let alice = &accounts[6];
        let bob = &accounts[7];
        let token_program = &accounts[8];
        let rent = &accounts[9];
        if escrow.data.len() != 0 {
            match EscrowData::try_from_slice(escrow.data.as_slice()) {
                None => {
                    return Err(EscrowError::MalformedRecord);
                },
                Some(prior) => {
                    if !matches!(prior.state, EscrowState::Uninitialized) {
                        return Err(EscrowError::AlreadyInitialized);
                    }
                },
            }
        }
        let (escrow_bump, create_escrow) = match provision(
            SeedTag::Escrow,
            &alice.key,
            &bob.key,
            &mint_x.key,
            &mint_y.key,
            pass,
            program_id,
            escrow,
            &rent.data,
            &payer.key,
            program_id,
            EscrowData::LEN,
            EscrowError::EscrowKeyMismatch,
        ) {
            Err(e) => {
                return Err(e);
            },
            Ok(p) => p,
        };
        let (vault_x_bump, create_vault_x) = match provision(
            SeedTag::VaultX,
            &alice.key,
            &bob.key,
            &mint_x.key,
            &mint_y.key,
            pass,
            program_id,
            vault_x,
            &rent.data,
            &payer.key,
            &token_program.key,
            TOKEN_ACCOUNT_LEN,
            EscrowError::VaultKeyMismatch,
        ) {
            Err(e) => {
                return Err(e);
            },
            Ok(p) => p,
        };
        let (vault_y_bump, create_vault_y) = match provision(
            SeedTag::VaultY,
            &alice.key,
            &bob.key,
            &mint_x.key,
            &mint_y.key,
            pass,
            program_id,
            vault_y,
            &rent.data,
            &payer.key,
            &token_program.key,
            TOKEN_ACCOUNT_LEN,
            EscrowError::VaultKeyMismatch,
        ) {
            Err(e) => {
                return Err(e);
            },
            Ok(p) => p,
        };
        let initialize_vault_x = match create_vault_x {
            Some(_) => Some(
                InitializeVaultAction {
                    vault: vault_x.key,
                    mint: mint_x.key,
                    authority: escrow.key,
                },
            ),
            None => None,
        };
        let initialize_vault_y = match create_vault_y {
            Some(_) => Some(
                InitializeVaultAction {
                    vault: vault_y.key,
                    mint: mint_y.key,
                    authority: escrow.key,
                },
            ),
            None => None,
        };
        let record = EscrowData {
            size_x,
            size_y,
            pubkey_alice: alice.key,
            pubkey_bob: bob.key,
            pubkey_mint_x: mint_x.key,
            pubkey_mint_y: mint_y.key,
            state: EscrowState::Initialized,
            escrow_bump,
            vault_x_bump,
            vault_y_bump,
        };
        let record_bytes = record.to_vec();
        Ok(
            InitEffect {
                plan: InitPlan {
                    create_escrow,
                    create_vault_x,
                    initialize_vault_x,
                    create_vault_y,
                    initialize_vault_y,
                    record,
                },
                record_bytes,
            },
        )
    }

    /// Handle Deposit: the caller moves their agreed amount into their own
    /// vault, and the record advances toward `Committed`.
    pub fn process_deposit(accounts: &Vec<AccountView>, pass: &[u8; 32], program_id: &Key) -> (r:
        Result<TransferEffect, EscrowError>)
        ensures
            (r matches Err(e) ==> deposit_decision(*program_id, accounts@, *pass) == Err::<
                SettlePlan,
                EscrowError,
            >(e)),
            (r matches Ok(eff) ==> deposit_decision(*program_id, accounts@, *pass) == Ok::<
                SettlePlan,
                EscrowError,
            >((SettlePlan { transfer: eff.transfer, record: eff.record })) && eff.record_bytes@
                == spec_serialize_record(eff.record)),
    {
        if accounts.len() < 5 {
            return Err(EscrowError::NotEnoughAccounts);
        }
        let escrow = &accounts[0];
        let payer_token = &accounts[1];
        let vault = &accounts[2];
        let payer = &accounts[3];
        let token_program = &accounts[4];
        let d = match EscrowData::try_from_slice(escrow.data.as_slice()) {
            None => {
                return Err(EscrowError::MalformedRecord);
            },
            Some(d) => d,
        };
        let (new_state, side) = match deposit_transition(&d, &payer.key) {
            Err(e) => {
                return Err(e);
            },
            Ok(p) => p,
        };
        match validate_settlement(
            program_id,
            &d,
            escrow,
            payer_token,
            vault,
            &payer.key,
            &token_program.key,
            pass,
            side,
        ) {
            Err(e) => {
                return Err(e);
            },
            Ok(_) => {},
        }
        let amount = match side {
            Side::X => d.size_x,
            Side::Y => d.size_y,
        };
        let record = EscrowData { state: new_state, ..d };
        let record_bytes = record.to_vec();
        Ok(
            TransferEffect {
                transfer: TransferAction {
                    source: payer_token.key,
                    destination: vault.key,
                    authority: payer.key,
                    amount,
                },
                record,
                record_bytes,
            },
        )
    }

    /// Handle Withdrawal: the caller takes the counterparty's deposit out of
    /// its vault, authorized by the escrow record's derived address, and the
    /// record advances toward `Uninitialized`.
    pub fn process_withdrawal(accounts: &Vec<AccountView>, pass: &[u8; 32], program_id: &Key) -> (r:
        Result<TransferEffect, EscrowError>)
        ensures
            (r matches Err(e) ==> withdraw_decision(*program_id, accounts@, *pass) == Err::<
                SettlePlan,
                EscrowError,
            >(e)),
            (r matches Ok(eff) ==> withdraw_decision(*program_id, accounts@, *pass) == Ok::<
                SettlePlan,
                EscrowError,
            >((SettlePlan { transfer: eff.transfer, record: eff.record })) && eff.record_bytes@
                == spec_serialize_record(eff.record)),
    {
        if accounts.len() < 5 {
            return Err(EscrowError::NotEnoughAccounts);
        }
        let escrow = &accounts[0];
        let taker_token = &accounts[1];
        let vault = &accounts[2];
        let taker = &accounts[3];
        let token_program = &accounts[4];
        let d = match EscrowData::try_from_slice(escrow.data.as_slice()) {
            None => {
                return Err(EscrowError::MalformedRecord);
            },
            Some(d) => d,
        };
        let (new_state, side) = match withdraw_transition(&d, &taker.key) {
            Err(e) => {
                return Err(e);
            },
            Ok(p) => p,
        };
        match validate_settlement(
            program_id,
            &d,
            escrow,
            taker_token,
            vault,
            &taker.key,
            &token_program.key,
            pass,
            side,
        ) {
            Err(e) => {
                return Err(e);
            },
            Ok(_) => {},
        }
        let amount = match side {
            Side::X => d.size_x,
            Side::Y => d.size_y,
        };
        let record = EscrowData { state: new_state, ..d };
        let record_bytes = record.to_vec();
        Ok(
            TransferEffect {
                transfer: TransferAction {
                    source: vault.key,
                    destination: taker_token.key,
                    authority: escrow.key,
                    amount,
                },
                record,
                record_bytes,
            },
        )
    }
}


/// Deposit against an absent or unwound record always rejects: until Init
/// has written a live record, no deposit can move funds.
pub proof fn lemma_deposit_before_init_rejects(
    program_id: Key,
    accounts: Seq<AccountView>,
    pass: [u8; 32],
)
    requires
        accounts.len() >= 5 ==> (match spec_deserialize_record(accounts[0].data@) {
            None => true,
            Some(d) => d.state == EscrowState::Uninitialized,
        }),
    ensures
        deposit_decision(program_id, accounts, pass) is Err,
{
}

/// Init on a record that already holds an active swap always rejects on the
/// second call.
pub proof fn lemma_reinit_rejects(
    program_id: Key,
    accounts: Seq<AccountView>,
    size_x: u64,
    size_y: u64,
    pass: [u8; 32],
    d: EscrowData,
)
    requires
        accounts.len() >= 11,
        accounts[0].data@.len() != 0,
        spec_deserialize_record(accounts[0].data@) == Some(d),
        d.state != EscrowState::Uninitialized,
    ensures
        init_decision(program_id, accounts, size_x, size_y, pass) == Err::<InitPlan, EscrowError>(
            EscrowError::AlreadyInitialized,
        ),
{
}

/// A deposit attempted by a third party — neither stored party — rejects,
/// whatever state the record is in.
pub proof fn lemma_third_party_deposit_rejects(
    program_id: Key,
    accounts: Seq<AccountView>,
    pass: [u8; 32],
    d: EscrowData,
)
    requires
        accounts.len() >= 5,
        spec_deserialize_record(accounts[0].data@) == Some(d),
        accounts[3].key@ != d.pubkey_alice@,
        accounts[3].key@ != d.pubkey_bob@,
    ensures
        deposit_decision(program_id, accounts, pass) == Err::<SettlePlan, EscrowError>(
            EscrowError::NotAParty,
        ),
{
}

/// Withdrawal before both deposits are in — any state other than
/// `Committed` or the single-sided withdraw states — always rejects.
pub proof fn lemma_early_withdrawal_rejects(
    program_id: Key,
    accounts: Seq<AccountView>,
    pass: [u8; 32],
)
    requires
        accounts.len() >= 5 ==> (match spec_deserialize_record(accounts[0].data@) {
            None => true,
            Some(d) => d.state != EscrowState::Committed && d.state != EscrowState::WithdrawAlice
                && d.state != EscrowState::WithdrawBob,
        }),
    ensures
        withdraw_decision(program_id, accounts, pass) is Err,
{
}

/// Address integrity of Deposit: a deposit only succeeds when the supplied
/// vault is one of the two addresses re-derived from the stored record
/// fields with the stored bumps, and the supplied escrow account is the
/// re-derived escrow address.
pub proof fn lemma_deposit_address_integrity(
    program_id: Key,
    accounts: Seq<AccountView>,
    pass: [u8; 32],
    d: EscrowData,
    plan: SettlePlan,
)
    requires
        accounts.len() >= 5,
        spec_deserialize_record(accounts[0].data@) == Some(d),
        deposit_decision(program_id, accounts, pass) == Ok::<SettlePlan, EscrowError>(plan),
    ensures
        spec_derive(
            SeedTag::VaultX,
            d.pubkey_alice@,
            d.pubkey_bob@,
            d.pubkey_mint_x@,
            d.pubkey_mint_y@,
            pass@,
            d.vault_x_bump,
            program_id@,
        ) == Some(accounts[2].key@) || spec_derive(
            SeedTag::VaultY,
            d.pubkey_alice@,
            d.pubkey_bob@,
            d.pubkey_mint_x@,
            d.pubkey_mint_y@,
            pass@,
            d.vault_y_bump,
            program_id@,
        ) == Some(accounts[2].key@),
        spec_derive(
            SeedTag::Escrow,
            d.pubkey_alice@,
            d.pubkey_bob@,
            d.pubkey_mint_x@,
            d.pubkey_mint_y@,
            pass@,
            d.escrow_bump,
            program_id@,
        ) == Some(accounts[0].key@),
{
}

/// Address integrity of Withdrawal: the same re-derivation rule as Deposit.
pub proof fn lemma_withdrawal_address_integrity(
    program_id: Key,
    accounts: Seq<AccountView>,
    pass: [u8; 32],
    d: EscrowData,
    plan: SettlePlan,
)
    requires
        accounts.len() >= 5,
        spec_deserialize_record(accounts[0].data@) == Some(d),
        withdraw_decision(program_id, accounts, pass) == Ok::<SettlePlan, EscrowError>(plan),
    ensures
        spec_derive(
            SeedTag::VaultX,
            d.pubkey_alice@,
            d.pubkey_bob@,
            d.pubkey_mint_x@,
            d.pubkey_mint_y@,
            pass@,
            d.vault_x_bump,
            program_id@,
        ) == Some(accounts[2].key@) || spec_derive(
            SeedTag::VaultY,
            d.pubkey_alice@,
            d.pubkey_bob@,
            d.pubkey_mint_x@,
            d.pubkey_mint_y@,
            pass@,
            d.vault_y_bump,
            program_id@,
        ) == Some(accounts[2].key@),
        spec_derive(
            SeedTag::Escrow,
            d.pubkey_alice@,
            d.pubkey_bob@,
            d.pubkey_mint_x@,
            d.pubkey_mint_y@,
            pass@,
            d.escrow_bump,
            program_id@,
        ) == Some(accounts[0].key@),
{
}

/// Vault substitution rejects: when the supplied vault matches neither
/// re-derivable vault address, both fund-moving instructions reject, however
/// valid everything else is.
pub proof fn lemma_vault_substitution_rejects(
    program_id: Key,
    accounts: Seq<AccountView>,
    pass: [u8; 32],
    d: EscrowData,
)
    requires
        accounts.len() >= 5,
        spec_deserialize_record(accounts[0].data@) == Some(d),
        (match spec_derive(
            SeedTag::VaultX,
            d.pubkey_alice@,
            d.pubkey_bob@,
            d.pubkey_mint_x@,
            d.pubkey_mint_y@,
            pass@,
            d.vault_x_bump,
            program_id@,
        ) {
            Some(k) => k != accounts[2].key@,
            None => true,
        }),
        (match spec_derive(
            SeedTag::VaultY,
            d.pubkey_alice@,
            d.pubkey_bob@,
            d.pubkey_mint_x@,
            d.pubkey_mint_y@,
            pass@,
            d.vault_y_bump,
            program_id@,
        ) {
            Some(k) => k != accounts[2].key@,
            None => true,
        }),
    ensures
        deposit_decision(program_id, accounts, pass) is Err,
        withdraw_decision(program_id, accounts, pass) is Err,
{
}

/// Mint integrity of Deposit: success implies the supplied token account
/// carries exactly the mint stored for the depositing side.
pub proof fn lemma_deposit_mint_checked(
    program_id: Key,
    accounts: Seq<AccountView>,
    pass: [u8; 32],
    d: EscrowData,
    new_state: EscrowState,
    side: Side,
    plan: SettlePlan,
)
    requires
        accounts.len() >= 5,
        spec_deserialize_record(accounts[0].data@) == Some(d),
        spec_deposit_transition(d, accounts[3].key) == Ok::<(EscrowState, Side), EscrowError>(
            (new_state, side),
        ),
        deposit_decision(program_id, accounts, pass) == Ok::<SettlePlan, EscrowError>(plan),
    ensures
        token_mint_bytes(accounts[1].data@) == spec_side_mint(d, side)@,
        plan.transfer.amount == spec_side_amount(d, side),
{
}

/// Mint mismatch rejects: a deposit whose token account carries any mint
/// other than the depositing side's stored mint never succeeds.
pub proof fn lemma_deposit_wrong_mint_rejects(
    program_id: Key,
    accounts: Seq<AccountView>,
    pass: [u8; 32],
    d: EscrowData,
    new_state: EscrowState,
    side: Side,
)
    requires
        accounts.len() >= 5,
        spec_deserialize_record(accounts[0].data@) == Some(d),
        spec_deposit_transition(d, accounts[3].key) == Ok::<(EscrowState, Side), EscrowError>(
            (new_state, side),
        ),
        token_mint_bytes(accounts[1].data@) != spec_side_mint(d, side)@,
    ensures
        deposit_decision(program_id, accounts, pass) is Err,
{
}

} // verus!
