use std::collections::HashMap;

use escrow::address::Address;
use escrow::derive::{derive_record_address, derive_vault_address};
use escrow::error::{EscrowError, ProcessError};
use escrow::instruction::EscrowInstruction;
use escrow::instructions::EscrowInstructions;
use escrow::processor;
use escrow::processor::{
    drain_lamports, process, refund, AccountView, Authority, Effect, ProgramIds,
};
use escrow::state::{Escrow, ESCROW_LEN};

const DECIMALS: u8 = 6;

fn addr(n: u8) -> Address {
    Address::new([n; 32])
}

fn ids() -> ProgramIds {
    ProgramIds {
        program_id: addr(200),
        token_program: Address::new(spl_token_interface::ID.to_bytes()),
        system_program: Address::new([0u8; 32]),
    }
}

fn token_data(mint: &Address, holder: &Address, amount: u64) -> Vec<u8> {
    let mut d = vec![0u8; 165];
    d[0..32].copy_from_slice(&mint.bytes);
    d[32..64].copy_from_slice(&holder.bytes);
    d[64..72].copy_from_slice(&amount.to_le_bytes());
    d[108] = 1;
    d
}

fn mint_data(decimals: u8) -> Vec<u8> {
    let mut d = vec![0u8; 82];
    d[44] = decimals;
    d[45] = 1;
    d
}

fn account(key: Address, owner: Address, lamports: u64, is_signer: bool, data: Vec<u8>) -> AccountView {
    AccountView { key, owner, lamports, is_signer, data }
}

/// Keys of one offer: maker, taker, the two mints and the four token accounts.
struct Parties {
    maker: Address,
    taker: Address,
    mint_a: Address,
    mint_b: Address,
    maker_a: Address,
    maker_b: Address,
    taker_a: Address,
    taker_b: Address,
    record: Address,
    vault: Address,
}

fn parties() -> Parties {
    let maker = addr(1);
    let mint_a = addr(2);
    let mint_b = addr(3);
    let program = ids().program_id;
    let (record, _) = derive_record_address(&program, &maker, &mint_a, &mint_b).unwrap();
    let (vault, _) = derive_vault_address(&program, &record).unwrap();
    Parties {
        maker,
        taker: addr(10),
        mint_a,
        mint_b,
        maker_a: addr(4),
        maker_b: addr(5),
        taker_a: addr(11),
        taker_b: addr(12),
        record,
        vault,
    }
}

fn make_accounts(p: &Parties, maker_balance: u64) -> Vec<AccountView> {
    let ids = ids();
    vec![
        account(p.maker, ids.system_program, 1_000_000, true, vec![]),
        account(p.mint_a, ids.token_program, 1_000, false, mint_data(DECIMALS)),
        account(p.mint_b, ids.token_program, 1_000, false, mint_data(DECIMALS)),
        account(p.maker_a, ids.token_program, 1_000, false, token_data(&p.mint_a, &p.maker, maker_balance)),
        account(p.record, ids.system_program, 0, false, vec![]),
        account(p.vault, ids.system_program, 0, false, vec![]),
        account(ids.token_program, addr(250), 1, false, vec![]),
        account(ids.system_program, addr(250), 1, false, vec![]),
        account(addr(77), addr(250), 1, false, vec![]),
    ]
}

fn stored_record(p: &Parties, offered: u64, required: u64) -> Vec<u8> {
    let program = ids().program_id;
    let (_, bump) = derive_record_address(&program, &p.maker, &p.mint_a, &p.mint_b).unwrap();
    let (_, vault_bump) = derive_vault_address(&program, &p.record).unwrap();
    Escrow {
        owner: p.maker,
        mint_a: p.mint_a,
        mint_b: p.mint_b,
        amount: offered,
        receive_amount: required,
        bump,
        vault_bump,
    }
    .pack()
}

fn take_accounts(p: &Parties, record_data: Vec<u8>, vault_balance: u64, taker_b_balance: u64) -> Vec<AccountView> {
    let ids = ids();
    vec![
        account(p.taker, ids.system_program, 1_000_000, true, vec![]),
        account(p.maker, ids.system_program, 1_000_000, false, vec![]),
        account(p.mint_a, ids.token_program, 1_000, false, mint_data(DECIMALS)),
        account(p.mint_b, ids.token_program, 1_000, false, mint_data(DECIMALS)),
        account(p.taker_a, ids.token_program, 1_000, false, token_data(&p.mint_a, &p.taker, 0)),
        account(p.taker_b, ids.token_program, 1_000, false, token_data(&p.mint_b, &p.taker, taker_b_balance)),
        account(p.maker_b, ids.token_program, 1_000, false, token_data(&p.mint_b, &p.maker, 0)),
        account(p.record, ids.program_id, 5_000, false, record_data),
        account(p.vault, ids.token_program, 7_000, false, token_data(&p.mint_a, &p.record, vault_balance)),
        account(ids.system_program, addr(250), 1, false, vec![]),
        account(ids.token_program, addr(250), 1, false, vec![]),
    ]
}

fn refund_accounts(p: &Parties, record_data: Vec<u8>, vault_balance: u64) -> Vec<AccountView> {
    let ids = ids();
    vec![
        account(p.maker, ids.system_program, 1_000_000, true, vec![]),
        account(p.mint_a, ids.token_program, 1_000, false, mint_data(DECIMALS)),
        account(p.mint_b, ids.token_program, 1_000, false, mint_data(DECIMALS)),
        account(p.maker_a, ids.token_program, 1_000, false, token_data(&p.mint_a, &p.maker, 0)),
        account(p.record, ids.program_id, 5_000, false, record_data),
        account(p.vault, ids.token_program, 7_000, false, token_data(&p.mint_a, &p.record, vault_balance)),
        account(ids.token_program, addr(250), 1, false, vec![]),
    ]
}

/// The balances, lamports and data a plan acts on, kept by key.
#[derive(Default)]
struct TestLedger {
    tokens: HashMap<[u8; 32], (Address, Address, u64)>,
    lamports: HashMap<[u8; 32], u64>,
    data: HashMap<[u8; 32], Vec<u8>>,
}

impl TestLedger {
    fn balance(&self, a: &Address) -> u64 {
        self.tokens[&a.bytes].2
    }

    fn lamports(&self, a: &Address) -> u64 {
        *self.lamports.get(&a.bytes).unwrap_or(&0)
    }

    fn apply(&mut self, plan: &[Effect]) {
        for e in plan {
            match e {
                Effect::CreateAccount { account, space, .. } => {
                    assert_eq!(self.lamports(account), 0);
                    self.lamports.insert(account.bytes, 1_000);
                    self.data.insert(account.bytes, vec![0u8; *space as usize]);
                }
                Effect::InitializeTokenAccount { account, mint, holder } => {
                    assert!(!self.tokens.contains_key(&account.bytes));
                    self.tokens.insert(account.bytes, (*mint, *holder, 0));
                }
                Effect::Transfer { source, mint, destination, authority, amount, .. } => {
                    let (smint, sholder, sbal) = self.tokens[&source.bytes];
                    let (dmint, _, _) = self.tokens[&destination.bytes];
                    assert!(smint == *mint && dmint == *mint && sholder == *authority);
                    assert!(sbal >= *amount);
                    self.tokens.get_mut(&source.bytes).unwrap().2 -= amount;
                    self.tokens.get_mut(&destination.bytes).unwrap().2 += amount;
                }
                Effect::CloseTokenAccount { account, destination, authority, .. } => {
                    let (_, holder, bal) = self.tokens.remove(&account.bytes).unwrap();
                    assert!(bal == 0 && holder == *authority);
                    let (total, rest) = drain_lamports(self.lamports(destination), self.lamports(account)).unwrap();
                    self.lamports.insert(destination.bytes, total);
                    self.lamports.insert(account.bytes, rest);
                }
                Effect::WriteRecord { account, record } => {
                    let bytes = record.pack();
                    assert_eq!(self.data[&account.bytes].len(), bytes.len());
                    self.data.insert(account.bytes, bytes);
                }
                Effect::ReclaimRecord { account, destination } => {
                    let (total, rest) = drain_lamports(self.lamports(destination), self.lamports(account)).unwrap();
                    self.lamports.insert(destination.bytes, total);
                    self.lamports.insert(account.bytes, rest);
                    let n = self.data[&account.bytes].len();
                    self.data.insert(account.bytes, vec![0u8; n]);
                }
            }
        }
    }
}

fn make_payload(offered: u64, required: u64) -> Vec<u8> {
    let mut d = vec![0u8];
    d.extend_from_slice(&offered.to_le_bytes());
    d.extend_from_slice(&required.to_le_bytes());
    d
}

#[test]
fn decode_make_payload() {
    let d = make_payload(100, 50);
    assert_eq!(
        EscrowInstructions::unpack(&d),
        Ok(EscrowInstructions::Make { amount_offered: 100, amount_required: 50 })
    );
}

#[test]
fn decode_take_and_refund_payloads() {
    let mut d = vec![1u8];
    d.extend_from_slice(&50u64.to_le_bytes());
    assert_eq!(EscrowInstructions::unpack(&d), Ok(EscrowInstructions::Take { amount: 50 }));
    assert_eq!(EscrowInstructions::unpack(&[2u8]), Ok(EscrowInstructions::Refund));
    let big = u64::MAX - 1;
    let mut d = vec![1u8];
    d.extend_from_slice(&big.to_le_bytes());
    assert_eq!(EscrowInstructions::unpack(&d), Ok(EscrowInstructions::Take { amount: big }));
}

#[test]
fn decode_refuses_malformed_payloads() {
    let bad = ProcessError::InvalidInstructionData;
    assert_eq!(EscrowInstructions::unpack(&[]), Err(bad));
    assert_eq!(EscrowInstructions::unpack(&[3u8]), Err(bad));
    assert_eq!(EscrowInstructions::unpack(&[2u8, 0u8]), Err(bad));
    assert_eq!(EscrowInstructions::unpack(&[1u8, 1, 2, 3]), Err(bad));
    let mut long = make_payload(1, 2);
    long.push(0);
    assert_eq!(EscrowInstructions::unpack(&long), Err(bad));
}

#[test]
fn instruction_encoding_round_trips() {
    for i in [
        EscrowInstructions::Make { amount_offered: 100, amount_required: 50 },
        EscrowInstructions::Take { amount: 0x0102_0304_0506_0708 },
        EscrowInstructions::Refund,
    ] {
        assert_eq!(EscrowInstructions::unpack(&i.pack()), Ok(i));
    }
    assert_eq!(EscrowInstructions::Make { amount_offered: 100, amount_required: 50 }.pack(), make_payload(100, 50));
}

#[test]
fn instruction_encoding_matches_borsh() {
    let expected = borsh::to_vec(&(0u8, 100u64, 50u64)).unwrap();
    assert_eq!(EscrowInstructions::Make { amount_offered: 100, amount_required: 50 }.pack(), expected);
    let expected = borsh::to_vec(&(1u8, 7u64)).unwrap();
    assert_eq!(EscrowInstructions::Take { amount: 7 }.pack(), expected);
}

#[test]
fn first_layout_instruction_decodes() {
    let d = make_payload(9, 4);
    let i = EscrowInstruction::unpack(&d).unwrap();
    assert_eq!(i, EscrowInstruction::Make { amount: 9, receive_amount: 4 });
    assert_eq!(i.normalize(), EscrowInstructions::Make { amount_offered: 9, amount_required: 4 });
    assert_eq!(EscrowInstruction::unpack(&[7u8]), Err(ProcessError::InvalidInstructionData));
}

#[test]
fn record_layout_round_trips() {
    let e = Escrow {
        owner: addr(1),
        mint_a: addr(2),
        mint_b: addr(3),
        amount: 100,
        receive_amount: 50,
        bump: 254,
        vault_bump: 253,
    };
    let bytes = e.pack();
    assert_eq!(bytes.len(), ESCROW_LEN);
    assert_eq!(ESCROW_LEN, 114);
    assert_eq!(&bytes[0..32], &[1u8; 32]);
    assert_eq!(&bytes[96..104], &100u64.to_le_bytes());
    assert_eq!(bytes[112], 254);
    assert_eq!(bytes[113], 253);
    let back = Escrow::unpack(&bytes).unwrap();
    assert!(back.owner == e.owner && back.mint_a == e.mint_a && back.mint_b == e.mint_b);
    assert_eq!((back.amount, back.receive_amount, back.bump, back.vault_bump), (100, 50, 254, 253));
    assert_eq!(Escrow::unpack(&bytes[1..]).unwrap_err(), ProcessError::InvalidAccountData);
}

#[test]
fn derivation_is_deterministic_and_input_sensitive() {
    let program = ids().program_id;
    let a = derive_record_address(&program, &addr(1), &addr(2), &addr(3)).unwrap();
    let b = derive_record_address(&program, &addr(1), &addr(2), &addr(3)).unwrap();
    assert!(a.0 == b.0 && a.1 == b.1);
    let other_owner = derive_record_address(&program, &addr(9), &addr(2), &addr(3)).unwrap();
    let other_a = derive_record_address(&program, &addr(1), &addr(9), &addr(3)).unwrap();
    let other_b = derive_record_address(&program, &addr(1), &addr(2), &addr(9)).unwrap();
    assert!(a.0 != other_owner.0 && a.0 != other_a.0 && a.0 != other_b.0);
}

#[test]
fn derivation_agrees_with_the_ledger_search() {
    let program = solana_pubkey::Pubkey::new_from_array(ids().program_id.bytes);
    let maker = addr(1);
    let (pda, bump) = solana_pubkey::Pubkey::find_program_address(
        &[b"escrow", &maker.bytes, &addr(2).bytes, &addr(3).bytes],
        &program,
    );
    let (ours, our_bump) = derive_record_address(&ids().program_id, &maker, &addr(2), &addr(3)).unwrap();
    assert_eq!(ours.bytes, pda.to_bytes());
    assert_eq!(our_bump, bump);
    let (vpda, vbump) = solana_pubkey::Pubkey::find_program_address(&[b"vault", pda.as_ref()], &program);
    let (vault, vault_bump) = derive_vault_address(&ids().program_id, &ours).unwrap();
    assert_eq!(vault.bytes, vpda.to_bytes());
    assert_eq!(vault_bump, vbump);
}

#[test]
fn signer_seeds_end_with_the_bump() {
    let s = Authority::Record { maker: addr(1), mint_a: addr(2), mint_b: addr(3), bump: 7 }.signer_seeds();
    assert_eq!(s, vec![b"escrow".to_vec(), vec![1u8; 32], vec![2u8; 32], vec![3u8; 32], vec![7u8]]);
    let s = Authority::Vault { record: addr(4), bump: 9 }.signer_seeds();
    assert_eq!(s, vec![b"vault".to_vec(), vec![4u8; 32], vec![9u8]]);
}

#[test]
fn make_plans_the_deposit() {
    let p = parties();
    let accs = make_accounts(&p, 100);
    let plan = processor::make(&ids(), &accs, 100, 50).unwrap();
    assert_eq!(plan.len(), 5);
    assert!(matches!(plan[0], Effect::CreateAccount { account, space: 114, .. } if account == p.record));
    assert!(matches!(plan[1], Effect::CreateAccount { account, space: 165, .. } if account == p.vault));
    assert!(matches!(plan[2], Effect::InitializeTokenAccount { account, mint, holder }
        if account == p.vault && mint == p.mint_a && holder == p.record));
    assert!(matches!(plan[3], Effect::Transfer { source, destination, amount: 100, decimals: DECIMALS, signer: None, .. }
        if source == p.maker_a && destination == p.vault));
    match plan[4] {
        Effect::WriteRecord { account, record } => {
            assert!(account == p.record && record.owner == p.maker);
            assert!(record.mint_a == p.mint_a && record.mint_b == p.mint_b);
            assert_eq!((record.amount, record.receive_amount), (100, 50));
        }
        _ => panic!("the last step writes the record"),
    }
}

#[test]
fn make_refusals() {
    let p = parties();
    let good = make_accounts(&p, 100);
    assert_eq!(processor::make(&ids(), &good, 0, 50).unwrap_err(), ProcessError::InvalidArgument);
    assert_eq!(processor::make(&ids(), &good, 100, 0).unwrap_err(), ProcessError::InvalidArgument);
    assert_eq!(processor::make(&ids(), &good[..8], 100, 50).unwrap_err(), ProcessError::NotEnoughAccountKeys);

    let mut unsigned = good.clone();
    unsigned[0].is_signer = false;
    assert_eq!(processor::make(&ids(), &unsigned, 100, 50).unwrap_err(), ProcessError::MissingRequiredSignature);

    let mut same_mint = good.clone();
    same_mint[2].key = p.mint_a;
    assert_eq!(processor::make(&ids(), &same_mint, 100, 50).unwrap_err(), ProcessError::InvalidArgument);

    let mut wrong_program = good.clone();
    wrong_program[6].key = addr(66);
    assert_eq!(processor::make(&ids(), &wrong_program, 100, 50).unwrap_err(), ProcessError::IncorrectProgramId);

    let mut foreign = good.clone();
    foreign[3].data = token_data(&p.mint_a, &addr(99), 100);
    assert_eq!(processor::make(&ids(), &foreign, 100, 50).unwrap_err(), ProcessError::IllegalOwner);

    let mut wrong_mint = good.clone();
    wrong_mint[3].data = token_data(&p.mint_b, &p.maker, 100);
    assert_eq!(processor::make(&ids(), &wrong_mint, 100, 50).unwrap_err(), ProcessError::InvalidAccountData);

    assert_eq!(processor::make(&ids(), &make_accounts(&p, 99), 100, 50).unwrap_err(), ProcessError::InsufficientFunds);

    let mut uninit = good.clone();
    uninit[3].data[108] = 0;
    assert_eq!(processor::make(&ids(), &uninit, 100, 50).unwrap_err(), ProcessError::UninitializedAccount);

    let mut wrong_record = good.clone();
    wrong_record[4].key = addr(42);
    assert_eq!(processor::make(&ids(), &wrong_record, 100, 50).unwrap_err(), ProcessError::InvalidSeeds);

    let mut wrong_vault = good.clone();
    wrong_vault[5].key = addr(43);
    assert_eq!(processor::make(&ids(), &wrong_vault, 100, 50).unwrap_err(), ProcessError::InvalidSeeds);

    let mut funded = good.clone();
    funded[4].lamports = 1;
    assert_eq!(processor::make(&ids(), &funded, 100, 50).unwrap_err(), ProcessError::AccountAlreadyInitialized);
    let mut funded_vault = good.clone();
    funded_vault[5].lamports = 1;
    assert_eq!(processor::make(&ids(), &funded_vault, 100, 50).unwrap_err(), ProcessError::AccountAlreadyInitialized);
}

#[test]
fn take_plans_the_swap() {
    let p = parties();
    let accs = take_accounts(&p, stored_record(&p, 100, 50), 100, 50);
    let plan = processor::take(&ids(), &accs, 50).unwrap();
    assert_eq!(plan.len(), 4);
    assert!(matches!(plan[0], Effect::Transfer { source, destination, authority, amount: 50, signer: None, .. }
        if source == p.taker_b && destination == p.maker_b && authority == p.taker));
    assert!(matches!(plan[1], Effect::Transfer { source, destination, authority, amount: 100, signer: Some(_), .. }
        if source == p.vault && destination == p.taker_a && authority == p.record));
    assert!(matches!(plan[2], Effect::CloseTokenAccount { account, destination, .. }
        if account == p.vault && destination == p.maker));
    assert!(matches!(plan[3], Effect::ReclaimRecord { account, destination }
        if account == p.record && destination == p.maker));
}

#[test]
fn take_refusals() {
    let p = parties();
    let good = take_accounts(&p, stored_record(&p, 100, 50), 100, 50);
    assert_eq!(processor::take(&ids(), &good, 49).unwrap_err(), ProcessError::InvalidArgument);
    assert_eq!(processor::take(&ids(), &good, 0).unwrap_err(), ProcessError::InvalidArgument);

    let mut unsigned = good.clone();
    unsigned[0].is_signer = false;
    assert_eq!(processor::take(&ids(), &unsigned, 50).unwrap_err(), ProcessError::MissingRequiredSignature);

    let mut not_ours = good.clone();
    not_ours[7].owner = addr(66);
    assert_eq!(processor::take(&ids(), &not_ours, 50).unwrap_err(), ProcessError::InvalidAccountOwner);
    assert_eq!(processor::take(&ids(), &not_ours, 49).unwrap_err(), ProcessError::InvalidArgument);

    let mut other_maker = good.clone();
    other_maker[1].key = addr(99);
    assert_eq!(processor::take(&ids(), &other_maker, 50).unwrap_err(), ProcessError::InvalidSeeds);

    let poor = take_accounts(&p, stored_record(&p, 100, 50), 100, 49);
    assert_eq!(processor::take(&ids(), &poor, 50).unwrap_err(), ProcessError::InsufficientFunds);

    let mut wrong_holder = good.clone();
    wrong_holder[5].data = token_data(&p.mint_b, &addr(98), 50);
    assert_eq!(processor::take(&ids(), &wrong_holder, 50).unwrap_err(), ProcessError::Escrow(EscrowError::InvalidUser));

    let mut wrong_mint = good.clone();
    wrong_mint[6].data = token_data(&p.mint_a, &p.maker, 0);
    assert_eq!(processor::take(&ids(), &wrong_mint, 50).unwrap_err(), ProcessError::Escrow(EscrowError::InvalidMint));

    let short_vault = take_accounts(&p, stored_record(&p, 100, 50), 99, 50);
    assert_eq!(processor::take(&ids(), &short_vault, 50).unwrap_err(), ProcessError::InsufficientFunds);
}

#[test]
fn refund_plans_the_return() {
    let p = parties();
    let accs = refund_accounts(&p, stored_record(&p, 100, 50), 100);
    let plan = refund(&ids(), &accs).unwrap();
    assert_eq!(plan.len(), 3);
    assert!(matches!(plan[0], Effect::Transfer { source, destination, mint, amount: 100, .. }
        if source == p.vault && destination == p.maker_a && mint == p.mint_a));
    assert!(matches!(plan[1], Effect::CloseTokenAccount { account, destination, .. }
        if account == p.vault && destination == p.maker));
    assert!(matches!(plan[2], Effect::ReclaimRecord { account, destination }
        if account == p.record && destination == p.maker));

    let mut unsigned = accs.clone();
    unsigned[0].is_signer = false;
    assert_eq!(refund(&ids(), &unsigned).unwrap_err(), ProcessError::MissingRequiredSignature);
    let mut stranger = accs.clone();
    stranger[0].key = addr(97);
    assert_eq!(refund(&ids(), &stranger).unwrap_err(), ProcessError::InvalidSeeds);
    let mut elsewhere = accs.clone();
    elsewhere[3].data = token_data(&p.mint_a, &addr(96), 0);
    assert_eq!(refund(&ids(), &elsewhere).unwrap_err(), ProcessError::Escrow(EscrowError::InvalidUser));
    let mut other_asset = accs.clone();
    other_asset[3].data = token_data(&p.mint_b, &p.maker, 0);
    assert_eq!(refund(&ids(), &other_asset).unwrap_err(), ProcessError::Escrow(EscrowError::InvalidMint));
}

#[test]
fn settled_record_refuses_second_take_and_refund() {
    let p = parties();
    let zeroed = vec![0u8; ESCROW_LEN];
    let accs = take_accounts(&p, zeroed.clone(), 0, 50);
    assert_eq!(processor::take(&ids(), &accs, 50).unwrap_err(), ProcessError::InvalidArgument);
    let accs = refund_accounts(&p, zeroed, 0);
    assert_eq!(refund(&ids(), &accs).unwrap_err(), ProcessError::UninitializedAccount);
    let gone = take_accounts(&p, vec![], 0, 50);
    assert_eq!(processor::take(&ids(), &gone, 50).unwrap_err(), ProcessError::InvalidAccountData);
}

#[test]
fn process_dispatches_on_the_tag() {
    let p = parties();
    let accs = make_accounts(&p, 100);
    assert_eq!(process(&ids(), &accs, &make_payload(100, 50)).unwrap().len(), 5);
    assert_eq!(process(&ids(), &accs, &[9u8]).unwrap_err(), ProcessError::InvalidInstructionData);
    let accs = refund_accounts(&p, stored_record(&p, 100, 50), 100);
    assert_eq!(process(&ids(), &accs, &[2u8]).unwrap().len(), 3);
}

#[test]
fn offer_of_a_hundred_for_fifty_end_to_end() {
    let p = parties();
    let mut ledger = TestLedger::default();
    ledger.tokens.insert(p.maker_a.bytes, (p.mint_a, p.maker, 100));
    ledger.tokens.insert(p.maker_b.bytes, (p.mint_b, p.maker, 0));
    ledger.tokens.insert(p.taker_a.bytes, (p.mint_a, p.taker, 0));
    ledger.tokens.insert(p.taker_b.bytes, (p.mint_b, p.taker, 50));
    ledger.lamports.insert(p.maker.bytes, 1_000_000);

    let plan = process(&ids(), &make_accounts(&p, 100), &make_payload(100, 50)).unwrap();
    ledger.apply(&plan);
    assert_eq!(ledger.balance(&p.vault), 100);
    assert_eq!(ledger.balance(&p.maker_a), 0);
    let record = Escrow::unpack(&ledger.data[&p.record.bytes]).unwrap();
    assert_eq!((record.amount, record.receive_amount), (100, 50));
    assert!(record.owner == p.maker);
    assert!(record.mint_a == p.mint_a);
    assert!(record.mint_b == p.mint_b);

    let mut take_data = vec![1u8];
    take_data.extend_from_slice(&50u64.to_le_bytes());
    let accs = take_accounts(&p, ledger.data[&p.record.bytes].clone(), 100, 50);
    let plan = process(&ids(), &accs, &take_data).unwrap();
    ledger.apply(&plan);
    assert_eq!(ledger.balance(&p.taker_a), 100);
    assert_eq!(ledger.balance(&p.taker_b), 0);
    assert_eq!(ledger.balance(&p.maker_b), 50);
    assert!(!ledger.tokens.contains_key(&p.vault.bytes));
    assert_eq!(ledger.lamports(&p.record), 0);
    assert_eq!(ledger.lamports(&p.maker), 1_002_000);
    assert!(ledger.data[&p.record.bytes].iter().all(|b| *b == 0));

    let again = take_accounts(&p, ledger.data[&p.record.bytes].clone(), 0, 50);
    assert!(process(&ids(), &again, &take_data).is_err());
}

#[test]
fn lamport_drain_is_checked() {
    assert_eq!(drain_lamports(10, 5), Some((15, 0)));
    assert_eq!(drain_lamports(u64::MAX, 1), None);
    assert_eq!(drain_lamports(u64::MAX - 1, 1), Some((u64::MAX, 0)));
}

#[test]
fn escrow_error_codes() {
    assert_eq!(EscrowError::InvalidAmount.code(), 0);
    assert_eq!(EscrowError::InvalidMint.code(), 1);
    assert_eq!(EscrowError::InvalidUser.code(), 2);
}

fn opening_ledger(p: &Parties) -> TestLedger {
    let mut ledger = TestLedger::default();
    ledger.tokens.insert(p.maker_a.bytes, (p.mint_a, p.maker, 100));
    ledger.tokens.insert(p.maker_b.bytes, (p.mint_b, p.maker, 0));
    ledger.tokens.insert(p.taker_a.bytes, (p.mint_a, p.taker, 0));
    ledger.tokens.insert(p.taker_b.bytes, (p.mint_b, p.taker, 50));
    ledger.lamports.insert(p.maker.bytes, 1_000_000);
    ledger
}

#[test]
fn make() {
    let p = parties();
    let mut ledger = opening_ledger(&p);
    let amount_offered: u64 = 100;
    let amount_required: u64 = 50;
    let mut instruction_data = vec![0u8];
    instruction_data.extend_from_slice(&amount_offered.to_le_bytes());
    instruction_data.extend_from_slice(&amount_required.to_le_bytes());
    let plan = process(&ids(), &make_accounts(&p, 100), &instruction_data).unwrap();
    ledger.apply(&plan);

    assert_eq!(ledger.balance(&p.vault), 100);
    assert_eq!(ledger.balance(&p.maker_a), 0);
    let escrow = Escrow::unpack(&ledger.data[&p.record.bytes]).unwrap();
    assert_eq!(escrow.amount, 100);
    assert_eq!(escrow.receive_amount, 50);
    assert!(escrow.owner == p.maker);
    assert!(escrow.mint_a == p.mint_a);
    assert!(escrow.mint_b == p.mint_b);
}

#[test]
fn take() {
    let p = parties();
    let mut ledger = opening_ledger(&p);
    let amount_offered: u64 = 100;
    let amount_required: u64 = 50;
    let mut make_data = vec![0u8];
    make_data.extend_from_slice(&amount_offered.to_le_bytes());
    make_data.extend_from_slice(&amount_required.to_le_bytes());
    let plan = process(&ids(), &make_accounts(&p, 100), &make_data).expect("Make instruction failed");
    ledger.apply(&plan);

    let mut instruction_data = vec![1u8];
    instruction_data.extend_from_slice(&amount_required.to_le_bytes());
    let accs = take_accounts(&p, ledger.data[&p.record.bytes].clone(), 100, 50);
    let plan = process(&ids(), &accs, &instruction_data).unwrap();
    ledger.apply(&plan);

    assert_eq!(ledger.balance(&p.taker_b), 0);
    assert_eq!(ledger.balance(&p.maker_b), amount_required);
    assert_eq!(ledger.lamports(&p.record), 0);
}
