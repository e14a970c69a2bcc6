//! End-to-end protocol tests: the happy path and every rejection the
//! handlers owe, driven through the processor with a tiny in-test ledger.

use escrow::Key;
use escrow::derive::{derive_address, find_bump, SeedTag};
use escrow::error::EscrowError;
use escrow::instruction::EscrowInstruction;
use escrow::processor::{AccountView, Effect, Processor, TransferEffect};
use escrow::state::{EscrowData, EscrowState};

fn key(b: u8) -> Key {
    Key([b; 32])
}

fn account(k: Key, owner: Key, lamports: u64, data: Vec<u8>) -> AccountView {
    AccountView { key: k, owner, lamports, data }
}

fn rent_sysvar() -> Vec<u8> {
    let mut v = Vec::new();
    v.extend_from_slice(&3480u64.to_le_bytes());
    v.extend_from_slice(&2.0f64.to_le_bytes());
    v.push(50);
    v
}

/// A 165-byte token account in the token program's layout.
fn token_account_data(mint: &Key, owner: &Key, amount: u64) -> Vec<u8> {
    let mut v = vec![0u8; 165];
    v[0..32].copy_from_slice(&mint.0);
    v[32..64].copy_from_slice(&owner.0);
    v[64..72].copy_from_slice(&amount.to_le_bytes());
    v[108] = 1; // initialized
    v
}

struct Setup {
    program_id: Key,
    alice: Key,
    bob: Key,
    mint_x: Key,
    mint_y: Key,
    pass: [u8; 32],
    token_program: Key,
    payer: Key,
    escrow_key: Key,
    vault_x_key: Key,
    vault_y_key: Key,
}

fn setup() -> Setup {
    let program_id = key(9);
    let alice = key(1);
    let bob = key(2);
    let mint_x = key(3);
    let mint_y = key(4);
    let pass = [7u8; 32];
    let (escrow_key, _) =
        find_bump(SeedTag::Escrow, &alice, &bob, &mint_x, &mint_y, &pass, &program_id).unwrap();
    let (vault_x_key, _) =
        find_bump(SeedTag::VaultX, &alice, &bob, &mint_x, &mint_y, &pass, &program_id).unwrap();
    let (vault_y_key, _) =
        find_bump(SeedTag::VaultY, &alice, &bob, &mint_x, &mint_y, &pass, &program_id).unwrap();
    Setup {
        program_id,
        alice,
        bob,
        mint_x,
        mint_y,
        pass,
        token_program: key(8),
        payer: key(5),
        escrow_key,
        vault_x_key,
        vault_y_key,
    }
}

fn init_accounts(s: &Setup, escrow_data: Vec<u8>) -> Vec<AccountView> {
    vec![
        account(s.escrow_key, s.program_id, 0, escrow_data),
        account(s.mint_x, s.token_program, 1, Vec::new()),
        account(s.mint_y, s.token_program, 1, Vec::new()),
        account(s.vault_x_key, key(0), 0, Vec::new()),
        account(s.vault_y_key, key(0), 0, Vec::new()),
        account(s.payer, key(0), 1_000_000_000, Vec::new()),
        account(s.alice, key(0), 1, Vec::new()),
        account(s.bob, key(0), 1, Vec::new()),
        account(s.token_program, key(0), 1, Vec::new()),
        account(key(6), key(0), 1, rent_sysvar()),
        account(key(0), key(0), 1, Vec::new()),
    ]
}

fn settle_accounts(
    s: &Setup,
    escrow_data: Vec<u8>,
    token_key: Key,
    token_data: Vec<u8>,
    vault_key: Key,
    caller: Key,
) -> Vec<AccountView> {
    vec![
        account(s.escrow_key, s.program_id, 1_920_960, escrow_data),
        account(token_key, s.token_program, 2_039_280, token_data),
        account(vault_key, s.token_program, 2_039_280, Vec::new()),
        account(caller, key(0), 1, Vec::new()),
        account(s.token_program, key(0), 1, Vec::new()),
    ]
}

fn run_init(s: &Setup, escrow_data: Vec<u8>, x: u64, y: u64) -> Result<Vec<u8>, EscrowError> {
    let accounts = init_accounts(s, escrow_data);
    let data = EscrowInstruction::InitEscrow { amount_x: x, amount_y: y, pass: s.pass }.to_vec();
    match Processor::process(&s.program_id, &accounts, &data)? {
        Effect::Init(eff) => Ok(eff.record_bytes),
        _ => panic!("wrong effect kind"),
    }
}

fn run_deposit(
    s: &Setup,
    escrow_data: Vec<u8>,
    token_key: Key,
    token_data: Vec<u8>,
    vault_key: Key,
    caller: Key,
) -> Result<TransferEffect, EscrowError> {
    let accounts = settle_accounts(s, escrow_data, token_key, token_data, vault_key, caller);
    let data = EscrowInstruction::Deposit { pass: s.pass }.to_vec();
    match Processor::process(&s.program_id, &accounts, &data)? {
        Effect::Deposit(eff) => Ok(eff),
        _ => panic!("wrong effect kind"),
    }
}

fn run_withdrawal(
    s: &Setup,
    escrow_data: Vec<u8>,
    token_key: Key,
    token_data: Vec<u8>,
    vault_key: Key,
    caller: Key,
) -> Result<TransferEffect, EscrowError> {
    let accounts = settle_accounts(s, escrow_data, token_key, token_data, vault_key, caller);
    let data = EscrowInstruction::Withdrawal { pass: s.pass }.to_vec();
    match Processor::process(&s.program_id, &accounts, &data)? {
        Effect::Withdrawal(eff) => Ok(eff),
        _ => panic!("wrong effect kind"),
    }
}

/// A tiny ledger of token balances, keyed by token-account address.
struct Ledger {
    balances: Vec<(Key, u64)>,
}

impl Ledger {
    fn new() -> Ledger {
        Ledger { balances: Vec::new() }
    }

    fn set(&mut self, k: Key, amount: u64) {
        self.balances.push((k, amount));
    }

    fn get(&self, k: &Key) -> u64 {
        self.balances.iter().find(|(b, _)| b == k).map(|(_, a)| *a).unwrap()
    }

    fn apply(&mut self, t: &escrow::processor::TransferAction) {
        let amount = t.amount;
        for entry in self.balances.iter_mut() {
            if entry.0 == t.source {
                assert!(entry.1 >= amount, "overdrawn transfer");
                entry.1 -= amount;
            }
        }
        for entry in self.balances.iter_mut() {
            if entry.0 == t.destination {
                entry.1 += amount;
            }
        }
    }
}

#[test]
fn full_happy_path() {
    let s = setup();
    let alice_x = key(11);
    let alice_y = key(12);
    let bob_x = key(13);
    let bob_y = key(14);

    let mut ledger = Ledger::new();
    ledger.set(alice_x, 100);
    ledger.set(alice_y, 0);
    ledger.set(bob_x, 0);
    ledger.set(bob_y, 50);
    ledger.set(s.vault_x_key, 0);
    ledger.set(s.vault_y_key, 0);

    // Init(x=100, y=50)
    let record = run_init(&s, Vec::new(), 100, 50).unwrap();
    let d = EscrowData::try_from_slice(&record).unwrap();
    assert_eq!(d.state, EscrowState::Initialized);
    assert_eq!(d.size_x, 100);
    assert_eq!(d.size_y, 50);

    // Deposit(alice): 100 X into the X vault.
    let eff = run_deposit(
        &s,
        record,
        alice_x,
        token_account_data(&s.mint_x, &s.alice, 100),
        s.vault_x_key,
        s.alice,
    )
    .unwrap();
    assert_eq!(eff.transfer.source, alice_x);
    assert_eq!(eff.transfer.destination, s.vault_x_key);
    assert_eq!(eff.transfer.authority, s.alice);
    assert_eq!(eff.transfer.amount, 100);
    assert_eq!(eff.record.state, EscrowState::DepositAlice);
    ledger.apply(&eff.transfer);
    let record = eff.record_bytes;

    // Deposit(bob): 50 Y into the Y vault.
    let eff = run_deposit(
        &s,
        record,
        bob_y,
        token_account_data(&s.mint_y, &s.bob, 50),
        s.vault_y_key,
        s.bob,
    )
    .unwrap();
    assert_eq!(eff.transfer.amount, 50);
    assert_eq!(eff.record.state, EscrowState::Committed);
    ledger.apply(&eff.transfer);
    let record = eff.record_bytes;
    assert_eq!(ledger.get(&s.vault_x_key), 100);
    assert_eq!(ledger.get(&s.vault_y_key), 50);

    // Withdrawal(bob): 100 X out of the X vault, signed by the escrow.
    let eff = run_withdrawal(
        &s,
        record,
        bob_x,
        token_account_data(&s.mint_x, &s.bob, 0),
        s.vault_x_key,
        s.bob,
    )
    .unwrap();
    assert_eq!(eff.transfer.source, s.vault_x_key);
    assert_eq!(eff.transfer.destination, bob_x);
    assert_eq!(eff.transfer.authority, s.escrow_key);
    assert_eq!(eff.transfer.amount, 100);
    assert_eq!(eff.record.state, EscrowState::WithdrawBob);
    ledger.apply(&eff.transfer);
    let record = eff.record_bytes;

    // Withdrawal(alice): 50 Y out of the Y vault.
    let eff = run_withdrawal(
        &s,
        record,
        alice_y,
        token_account_data(&s.mint_y, &s.alice, 0),
        s.vault_y_key,
        s.alice,
    )
    .unwrap();
    assert_eq!(eff.transfer.amount, 50);
    assert_eq!(eff.record.state, EscrowState::Uninitialized);
    ledger.apply(&eff.transfer);

    // Alice holds 50 Y, bob holds 100 X, both vaults drained, state reset.
    assert_eq!(ledger.get(&alice_y), 50);
    assert_eq!(ledger.get(&bob_x), 100);
    assert_eq!(ledger.get(&alice_x), 0);
    assert_eq!(ledger.get(&bob_y), 0);
    assert_eq!(ledger.get(&s.vault_x_key), 0);
    assert_eq!(ledger.get(&s.vault_y_key), 0);
}

#[test]
fn init_creates_all_three_accounts() {
    let s = setup();
    let accounts = init_accounts(&s, Vec::new());
    let eff = Processor::process_init_escrow(&accounts, 100, 50, &s.pass, &s.program_id).unwrap();
    let ce = eff.plan.create_escrow.unwrap();
    assert_eq!(ce.target, s.escrow_key);
    assert_eq!(ce.funder, s.payer);
    assert_eq!(ce.owner, s.program_id);
    assert_eq!(ce.space, 148);
    assert_eq!(ce.lamports, 1_920_960);
    let cx = eff.plan.create_vault_x.unwrap();
    assert_eq!(cx.target, s.vault_x_key);
    assert_eq!(cx.owner, s.token_program);
    assert_eq!(cx.space, 165);
    assert_eq!(cx.lamports, 2_039_280);
    let ix = eff.plan.initialize_vault_x.unwrap();
    assert_eq!(ix.vault, s.vault_x_key);
    assert_eq!(ix.mint, s.mint_x);
    assert_eq!(ix.authority, s.escrow_key);
    let iy = eff.plan.initialize_vault_y.unwrap();
    assert_eq!(iy.mint, s.mint_y);
    assert_eq!(eff.record_bytes, eff.plan.record.to_vec());
}

#[test]
fn init_skips_existing_vaults() {
    let s = setup();
    let mut accounts = init_accounts(&s, Vec::new());
    // both vaults already hold token-account storage
    accounts[3].data = token_account_data(&s.mint_x, &s.escrow_key, 0);
    accounts[4].data = token_account_data(&s.mint_y, &s.escrow_key, 0);
    let eff = Processor::process_init_escrow(&accounts, 100, 50, &s.pass, &s.program_id).unwrap();
    assert!(eff.plan.create_escrow.is_some());
    assert!(eff.plan.create_vault_x.is_none());
    assert!(eff.plan.initialize_vault_x.is_none());
    assert!(eff.plan.create_vault_y.is_none());
    assert!(eff.plan.initialize_vault_y.is_none());
}

#[test]
fn init_twice_rejects() {
    let s = setup();
    let record = run_init(&s, Vec::new(), 100, 50).unwrap();
    assert_eq!(run_init(&s, record, 100, 50), Err(EscrowError::AlreadyInitialized));
}

#[test]
fn init_accepts_zeroed_record_storage() {
    let s = setup();
    // storage exists but has never held a swap: all zeroes parse to an
    // uninitialized record
    let record = run_init(&s, vec![0u8; 148], 100, 50).unwrap();
    let d = EscrowData::try_from_slice(&record).unwrap();
    assert_eq!(d.state, EscrowState::Initialized);
}

#[test]
fn init_rejects_malformed_record_storage() {
    let s = setup();
    assert_eq!(run_init(&s, vec![0u8; 100], 100, 50), Err(EscrowError::MalformedRecord));
}

#[test]
fn init_rejects_misplaced_escrow_account() {
    let s = setup();
    let mut accounts = init_accounts(&s, Vec::new());
    accounts[0].key = key(42);
    let data = EscrowInstruction::InitEscrow { amount_x: 1, amount_y: 1, pass: s.pass }.to_vec();
    assert_eq!(
        Processor::process(&s.program_id, &accounts, &data),
        Err(EscrowError::EscrowKeyMismatch)
    );
}

#[test]
fn init_rejects_misplaced_vault_account() {
    let s = setup();
    let mut accounts = init_accounts(&s, Vec::new());
    accounts[3].key = key(42);
    let data = EscrowInstruction::InitEscrow { amount_x: 1, amount_y: 1, pass: s.pass }.to_vec();
    assert_eq!(
        Processor::process(&s.program_id, &accounts, &data),
        Err(EscrowError::VaultKeyMismatch)
    );
}

#[test]
fn init_rejects_malformed_rent() {
    let s = setup();
    let mut accounts = init_accounts(&s, Vec::new());
    accounts[9].data = vec![1, 2, 3];
    let data = EscrowInstruction::InitEscrow { amount_x: 1, amount_y: 1, pass: s.pass }.to_vec();
    assert_eq!(Processor::process(&s.program_id, &accounts, &data), Err(EscrowError::MalformedRent));
}

#[test]
fn deposit_before_init_rejects() {
    let s = setup();
    // no record storage at all
    let r = run_deposit(
        &s,
        Vec::new(),
        key(11),
        token_account_data(&s.mint_x, &s.alice, 100),
        s.vault_x_key,
        s.alice,
    );
    assert_eq!(r, Err(EscrowError::MalformedRecord));
    // zeroed record storage: an unwound record, no deposit phase open
    let r = run_deposit(
        &s,
        vec![0u8; 148],
        key(11),
        token_account_data(&s.mint_x, &s.alice, 100),
        s.vault_x_key,
        s.alice,
    );
    assert!(r.is_err());
}

#[test]
fn deposit_by_third_party_rejects() {
    let s = setup();
    let outsider = key(33);
    // in the Initialized state
    let record = run_init(&s, Vec::new(), 100, 50).unwrap();
    let r = run_deposit(
        &s,
        record.clone(),
        key(11),
        token_account_data(&s.mint_x, &outsider, 100),
        s.vault_x_key,
        outsider,
    );
    assert_eq!(r, Err(EscrowError::NotAParty));
    // and regardless of state: after alice deposited
    let eff = run_deposit(
        &s,
        record,
        key(11),
        token_account_data(&s.mint_x, &s.alice, 100),
        s.vault_x_key,
        s.alice,
    )
    .unwrap();
    let r = run_deposit(
        &s,
        eff.record_bytes,
        key(11),
        token_account_data(&s.mint_y, &outsider, 50),
        s.vault_y_key,
        outsider,
    );
    assert_eq!(r, Err(EscrowError::NotAParty));
}

#[test]
fn deposit_twice_by_same_party_rejects() {
    let s = setup();
    let record = run_init(&s, Vec::new(), 100, 50).unwrap();
    let eff = run_deposit(
        &s,
        record,
        key(11),
        token_account_data(&s.mint_x, &s.alice, 100),
        s.vault_x_key,
        s.alice,
    )
    .unwrap();
    let r = run_deposit(
        &s,
        eff.record_bytes,
        key(11),
        token_account_data(&s.mint_x, &s.alice, 100),
        s.vault_x_key,
        s.alice,
    );
    assert_eq!(r, Err(EscrowError::WrongPhase));
}

#[test]
fn deposit_with_wrong_mint_rejects() {
    let s = setup();
    let record = run_init(&s, Vec::new(), 100, 50).unwrap();
    // alice's side expects mint X; hand a Y-mint token account
    let r = run_deposit(
        &s,
        record,
        key(11),
        token_account_data(&s.mint_y, &s.alice, 100),
        s.vault_x_key,
        s.alice,
    );
    assert_eq!(r, Err(EscrowError::MintMismatch));
}

#[test]
fn deposit_with_substituted_vault_rejects() {
    let s = setup();
    let record = run_init(&s, Vec::new(), 100, 50).unwrap();
    let r = run_deposit(
        &s,
        record,
        key(11),
        token_account_data(&s.mint_x, &s.alice, 100),
        key(42),
        s.alice,
    );
    assert_eq!(r, Err(EscrowError::VaultKeyMismatch));
}

#[test]
fn deposit_with_foreign_token_account_rejects() {
    let s = setup();
    let record = run_init(&s, Vec::new(), 100, 50).unwrap();
    // the supplied token account is not owned by the token program
    let mut accounts = settle_accounts(
        &s,
        record.clone(),
        key(11),
        token_account_data(&s.mint_x, &s.alice, 100),
        s.vault_x_key,
        s.alice,
    );
    accounts[1].owner = key(44);
    let data = EscrowInstruction::Deposit { pass: s.pass }.to_vec();
    assert_eq!(
        Processor::process(&s.program_id, &accounts, &data),
        Err(EscrowError::NotOwnedByTokenProgram)
    );
    // the token account's logical owner is not the caller
    let r = run_deposit(
        &s,
        record,
        key(11),
        token_account_data(&s.mint_x, &s.bob, 100),
        s.vault_x_key,
        s.alice,
    );
    assert_eq!(r, Err(EscrowError::TokenOwnerMismatch));
}

#[test]
fn deposit_with_malformed_token_account_rejects() {
    let s = setup();
    let record = run_init(&s, Vec::new(), 100, 50).unwrap();
    let r = run_deposit(&s, record.clone(), key(11), vec![0u8; 10], s.vault_x_key, s.alice);
    assert_eq!(r, Err(EscrowError::MalformedTokenAccount));
    // right length, but a bad option tag
    let mut data = token_account_data(&s.mint_x, &s.alice, 100);
    data[72] = 9;
    let r = run_deposit(&s, record, key(11), data, s.vault_x_key, s.alice);
    assert_eq!(r, Err(EscrowError::MalformedTokenAccount));
}

#[test]
fn deposit_with_wrong_pass_rejects() {
    let s = setup();
    let record = run_init(&s, Vec::new(), 100, 50).unwrap();
    let accounts = settle_accounts(
        &s,
        record,
        key(11),
        token_account_data(&s.mint_x, &s.alice, 100),
        s.vault_x_key,
        s.alice,
    );
    let data = EscrowInstruction::Deposit { pass: [8u8; 32] }.to_vec();
    let r = Processor::process(&s.program_id, &accounts, &data);
    // a different pass derives different addresses, so the re-derivation
    // comparison fails (or, rarely, derivation itself fails)
    assert!(matches!(
        r,
        Err(EscrowError::VaultKeyMismatch) | Err(EscrowError::DerivationFailed)
    ));
}

#[test]
fn withdrawal_before_both_deposits_rejects() {
    let s = setup();
    // Initialized: nothing to withdraw
    let record = run_init(&s, Vec::new(), 100, 50).unwrap();
    let r = run_withdrawal(
        &s,
        record.clone(),
        key(13),
        token_account_data(&s.mint_x, &s.bob, 0),
        s.vault_x_key,
        s.bob,
    );
    assert_eq!(r, Err(EscrowError::WrongPhase));
    // single-sided deposit: still nothing to withdraw
    let eff = run_deposit(
        &s,
        record,
        key(11),
        token_account_data(&s.mint_x, &s.alice, 100),
        s.vault_x_key,
        s.alice,
    )
    .unwrap();
    let r = run_withdrawal(
        &s,
        eff.record_bytes,
        key(11),
        token_account_data(&s.mint_x, &s.alice, 0),
        s.vault_x_key,
        s.alice,
    );
    assert_eq!(r, Err(EscrowError::WrongPhase));
}

#[test]
fn withdrawal_twice_by_same_party_rejects() {
    let s = setup();
    let record = run_init(&s, Vec::new(), 100, 50).unwrap();
    let eff = run_deposit(
        &s,
        record,
        key(11),
        token_account_data(&s.mint_x, &s.alice, 100),
        s.vault_x_key,
        s.alice,
    )
    .unwrap();
    let eff = run_deposit(
        &s,
        eff.record_bytes,
        key(14),
        token_account_data(&s.mint_y, &s.bob, 50),
        s.vault_y_key,
        s.bob,
    )
    .unwrap();
    let eff = run_withdrawal(
        &s,
        eff.record_bytes,
        key(13),
        token_account_data(&s.mint_x, &s.bob, 0),
        s.vault_x_key,
        s.bob,
    )
    .unwrap();
    // bob tries to withdraw again
    let r = run_withdrawal(
        &s,
        eff.record_bytes,
        key(13),
        token_account_data(&s.mint_x, &s.bob, 0),
        s.vault_x_key,
        s.bob,
    );
    assert_eq!(r, Err(EscrowError::WrongPhase));
}

#[test]
fn withdrawal_by_third_party_rejects() {
    let s = setup();
    let outsider = key(33);
    let record = run_init(&s, Vec::new(), 100, 50).unwrap();
    let eff = run_deposit(
        &s,
        record,
        key(11),
        token_account_data(&s.mint_x, &s.alice, 100),
        s.vault_x_key,
        s.alice,
    )
    .unwrap();
    let eff = run_deposit(
        &s,
        eff.record_bytes,
        key(14),
        token_account_data(&s.mint_y, &s.bob, 50),
        s.vault_y_key,
        s.bob,
    )
    .unwrap();
    let r = run_withdrawal(
        &s,
        eff.record_bytes,
        key(15),
        token_account_data(&s.mint_x, &outsider, 0),
        s.vault_x_key,
        outsider,
    );
    assert_eq!(r, Err(EscrowError::NotAParty));
}

#[test]
fn withdrawal_with_substituted_escrow_rejects() {
    let s = setup();
    let record = run_init(&s, Vec::new(), 100, 50).unwrap();
    let eff = run_deposit(
        &s,
        record,
        key(11),
        token_account_data(&s.mint_x, &s.alice, 100),
        s.vault_x_key,
        s.alice,
    )
    .unwrap();
    let eff = run_deposit(
        &s,
        eff.record_bytes,
        key(14),
        token_account_data(&s.mint_y, &s.bob, 50),
        s.vault_y_key,
        s.bob,
    )
    .unwrap();
    let mut accounts = settle_accounts(
        &s,
        eff.record_bytes,
        key(13),
        token_account_data(&s.mint_x, &s.bob, 0),
        s.vault_x_key,
        s.bob,
    );
    accounts[0].key = key(42);
    let data = EscrowInstruction::Withdrawal { pass: s.pass }.to_vec();
    assert_eq!(
        Processor::process(&s.program_id, &accounts, &data),
        Err(EscrowError::EscrowKeyMismatch)
    );
}

#[test]
fn stored_bump_that_derives_nothing_rejects() {
    let s = setup();
    let record = run_init(&s, Vec::new(), 100, 50).unwrap();
    let mut d = EscrowData::try_from_slice(&record).unwrap();
    // find a bump whose derivation fails, and plant it in the record
    let mut bad_bump = None;
    for bump in (1..=255u8).rev() {
        if derive_address(
            SeedTag::VaultX,
            &s.alice,
            &s.bob,
            &s.mint_x,
            &s.mint_y,
            &s.pass,
            bump,
            &s.program_id,
        )
        .is_none()
        {
            bad_bump = Some(bump);
            break;
        }
    }
    d.vault_x_bump = bad_bump.expect("every bump derived an address");
    let r = run_deposit(
        &s,
        d.to_vec(),
        key(11),
        token_account_data(&s.mint_x, &s.alice, 100),
        s.vault_x_key,
        s.alice,
    );
    assert_eq!(r, Err(EscrowError::DerivationFailed));
}

#[test]
fn process_rejects_malformed_instruction() {
    let s = setup();
    let accounts = init_accounts(&s, Vec::new());
    assert_eq!(
        Processor::process(&s.program_id, &accounts, &[9u8, 9, 9]),
        Err(EscrowError::MalformedInstruction)
    );
}

#[test]
fn process_rejects_short_account_list() {
    let s = setup();
    let data = EscrowInstruction::Deposit { pass: s.pass }.to_vec();
    let accounts = vec![account(key(0), key(0), 0, Vec::new())];
    assert_eq!(
        Processor::process(&s.program_id, &accounts, &data),
        Err(EscrowError::NotEnoughAccounts)
    );
    let data = EscrowInstruction::InitEscrow { amount_x: 1, amount_y: 1, pass: s.pass }.to_vec();
    assert_eq!(
        Processor::process(&s.program_id, &accounts, &data),
        Err(EscrowError::NotEnoughAccounts)
    );
}

#[test]
fn largest_amounts_pass_through_unchanged() {
    let s = setup();
    let record = run_init(&s, Vec::new(), u64::MAX, u64::MAX - 1).unwrap();
    let d = EscrowData::try_from_slice(&record).unwrap();
    assert_eq!(d.size_x, u64::MAX);
    assert_eq!(d.size_y, u64::MAX - 1);
    let eff = run_deposit(
        &s,
        record,
        key(11),
        token_account_data(&s.mint_x, &s.alice, u64::MAX),
        s.vault_x_key,
        s.alice,
    )
    .unwrap();
    assert_eq!(eff.transfer.amount, u64::MAX);
}

#[test]
fn deposit_accepts_delegated_amount_bytes() {
    let s = setup();
    let record = run_init(&s, Vec::new(), 100, 50).unwrap();
    // a nonzero delegated amount at bytes 121..129 is legal account data
    let mut data = token_account_data(&s.mint_x, &s.alice, 100);
    data[121..129].copy_from_slice(&7u64.to_le_bytes());
    let eff = run_deposit(&s, record, key(11), data, s.vault_x_key, s.alice).unwrap();
    assert_eq!(eff.transfer.amount, 100);
}

#[test]
fn deposit_rejects_bad_close_authority_tag() {
    let s = setup();
    let record = run_init(&s, Vec::new(), 100, 50).unwrap();
    // the close-authority option tag sits at bytes 129..133
    let mut data = token_account_data(&s.mint_x, &s.alice, 100);
    data[129] = 2;
    let r = run_deposit(&s, record, key(11), data, s.vault_x_key, s.alice);
    assert_eq!(r, Err(EscrowError::MalformedTokenAccount));
}

#[test]
fn init_rejects_overflowing_rent_rate() {
    let s = setup();
    let mut accounts = init_accounts(&s, Vec::new());
    let mut rent_data = Vec::new();
    rent_data.extend_from_slice(&u64::MAX.to_le_bytes());
    rent_data.extend_from_slice(&[0u8; 8]);
    rent_data.push(50);
    accounts[9].data = rent_data;
    let data = EscrowInstruction::InitEscrow { amount_x: 1, amount_y: 1, pass: s.pass }.to_vec();
    assert_eq!(Processor::process(&s.program_id, &accounts, &data), Err(EscrowError::MalformedRent));
}
