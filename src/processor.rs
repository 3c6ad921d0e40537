use vstd::prelude::*;

use crate::address::{lemma_address_eq, Address};
use crate::derive::{
    derive_record_address, derive_vault_address, make_record_seeds, make_vault_seeds,
    record_address, record_seeds, vault_address, vault_seeds,
};
use crate::error::{EscrowError, ProcessError};
use crate::instructions::{decode_instruction, EscrowInstructions};
use crate::state::{
    escrow_layout, record_is_open, stored_amount, stored_mint_a, stored_mint_b, stored_owner,
    stored_required, Escrow, ESCROW_LEN,
};
use crate::token::{
    mint_decimals, mint_status, token_account_status, token_balance, token_holder, token_mint,
    unpack_mint_decimals, unpack_token_account, TOKEN_ACCOUNT_LEN,
};

verus! {

broadcast use lemma_address_eq;

/// What the processor sees of one account handed to an instruction.
#[derive(Debug, Clone)]
pub struct AccountView {
    pub key: Address,
    /// The program that owns the account.
    pub owner: Address,
    pub lamports: u64,
    pub is_signer: bool,
    pub data: Vec<u8>,
}

/// The identities of this program and of the two programs it calls.
#[derive(Debug, Clone, Copy)]
pub struct ProgramIds {
    pub program_id: Address,
    pub token_program: Address,
    pub system_program: Address,
}

/// A derived address, given by its seeds and bump, that the program signs for.
#[derive(Debug, Clone, Copy)]
pub enum Authority {
    /// The record address of the offer of `maker`, from `mint_a` to `mint_b`.
    Record { maker: Address, mint_a: Address, mint_b: Address, bump: u8 },
    /// The vault address that belongs to `record`.
    Vault { record: Address, bump: u8 },
}

/// The seeds, bump last, that sign for an authority.
pub open spec fn signer_seeds(a: Authority) -> Seq<Seq<u8>> {
    match a {
        Authority::Record { maker, mint_a, mint_b, bump } => record_seeds(maker, mint_a, mint_b).push(
            seq![bump],
        ),
        Authority::Vault { record, bump } => vault_seeds(record).push(seq![bump]),
    }
}

impl Authority {
    /// The seeds, bump last, that sign for this authority.
    pub fn signer_seeds(&self) -> (r: Vec<Vec<u8>>)
        ensures
            r.deep_view() == signer_seeds(*self),
    {
        let (mut seeds, bump) = match self {
            Authority::Record { maker, mint_a, mint_b, bump } => (
                make_record_seeds(maker, mint_a, mint_b),
                *bump,
            ),
            Authority::Vault { record, bump } => (make_vault_seeds(record), *bump),
        };
        let ghost before = seeds.deep_view();
        let last: Vec<u8> = vec![bump];
        seeds.push(last);
        proof {
            let d = seeds.deep_view();
            assert(d[d.len() - 1] =~= seq![bump]);
            assert(d =~= before.push(seq![bump]));
        }
        seeds
    }
}

/// One step of a transition, performed by the ledger or by a program this one calls.
#[derive(Debug, Clone, Copy)]
pub enum Effect {
    /// Allocate `account` with `space` bytes owned by `owner`, funded by `payer`
    /// for rent exemption as the rent sysvar account states it.
    CreateAccount {
        payer: Address,
        account: Address,
        space: u64,
        owner: Address,
        rent_sysvar: Address,
        signer: Authority,
    },
    /// Make `account` a token account for `mint` held by `holder`.
    InitializeTokenAccount { account: Address, mint: Address, holder: Address },
    /// Move `amount` units of `mint` from `source` to `destination`.
    Transfer {
        source: Address,
        mint: Address,
        destination: Address,
        authority: Address,
        amount: u64,
        decimals: u8,
        signer: Option<Authority>,
    },
    /// Close the empty token account `account`, its lamports going to `destination`.
    CloseTokenAccount {
        account: Address,
        destination: Address,
        authority: Address,
        signer: Authority,
    },
    /// Store `record` in the data of `account`.
    WriteRecord { account: Address, record: Escrow },
    /// Move all lamports of `account` to `destination` and zero its data.
    ReclaimRecord { account: Address, destination: Address },
}

pub open spec fn plan_view(r: Result<Vec<Effect>, ProcessError>) -> Result<
    Seq<Effect>,
    ProcessError,
> {
    match r {
        Ok(p) => Ok(p@),
        Err(e) => Err(e),
    }
}

/// Positions of the accounts of Make.
pub const MAKE_ACCOUNTS: usize = 9;

/// The outcome of Make on `accs` with the given amounts: the checks in order,
/// then the plan that opens the offer.
pub open spec fn make_result(ids: ProgramIds, accs: Seq<AccountView>, amount_offered: u64, amount_required: u64) -> Result<Seq<Effect>, ProcessError> {
    if amount_offered == 0 || amount_required == 0 {
        Err(ProcessError::InvalidArgument)
    } else if accs.len() < MAKE_ACCOUNTS {
        Err(ProcessError::NotEnoughAccountKeys)
    } else {
        let maker = accs[0];
        let mint_a = accs[1];
        let mint_b = accs[2];
        let source = accs[3];
        let record = accs[4];
        let vault = accs[5];
        let token_program = accs[6];
        let system_program = accs[7];
        let rent_sysvar = accs[8];
        let sd = source.data@;
        if !maker.is_signer {
            Err(ProcessError::MissingRequiredSignature)
        } else if system_program.key != ids.system_program || token_program.key != ids.token_program {
            Err(ProcessError::IncorrectProgramId)
        } else if mint_a.key == mint_b.key {
            Err(ProcessError::InvalidArgument)
        } else if source.owner != token_program.key {
            Err(ProcessError::InvalidAccountOwner)
        } else if token_account_status(sd) is Err {
            Err(token_account_status(sd)->Err_0)
        } else if token_holder(sd) != maker.key.bytes@ {
            Err(ProcessError::IllegalOwner)
        } else if token_mint(sd) != mint_a.key.bytes@ {
            Err(ProcessError::InvalidAccountData)
        } else if token_balance(sd) < amount_offered {
            Err(ProcessError::InsufficientFunds)
        } else {
            let ra = record_address(ids.program_id, maker.key, mint_a.key, mint_b.key);
            let va = vault_address(ids.program_id, record.key);
            if ra is None || ra->Some_0.0 != record.key.bytes@ {
                Err(ProcessError::InvalidSeeds)
            } else if va is None || va->Some_0.0 != vault.key.bytes@ {
                Err(ProcessError::InvalidSeeds)
            } else if record.lamports != 0 || vault.lamports != 0 {
                Err(ProcessError::AccountAlreadyInitialized)
            } else if mint_status(mint_a.data@) is Err {
                Err(mint_status(mint_a.data@)->Err_0)
            } else {
                let bump = ra->Some_0.1;
                let vault_bump = va->Some_0.1;
                Ok(
                    seq![
                        Effect::CreateAccount {
                            payer: maker.key,
                            account: record.key,
                            space: ESCROW_LEN as u64,
                            owner: ids.program_id,
                            rent_sysvar: rent_sysvar.key,
                            signer: Authority::Record {
                                maker: maker.key,
                                mint_a: mint_a.key,
                                mint_b: mint_b.key,
                                bump,
                            },
                        },
                        Effect::CreateAccount {
                            payer: maker.key,
                            account: vault.key,
                            space: TOKEN_ACCOUNT_LEN as u64,
                            owner: token_program.key,
                            rent_sysvar: rent_sysvar.key,
                            signer: Authority::Vault { record: record.key, bump: vault_bump },
                        },
                        Effect::InitializeTokenAccount {
                            account: vault.key,
                            mint: mint_a.key,
                            holder: record.key,
                        },
                        Effect::Transfer {
                            source: source.key,
                            mint: mint_a.key,
                            destination: vault.key,
                            authority: maker.key,
                            amount: amount_offered,
                            decimals: mint_decimals(mint_a.data@),
                            signer: None,
                        },
                        Effect::WriteRecord {
                            account: record.key,
                            record: Escrow {
                                owner: maker.key,
                                mint_a: mint_a.key,
                                mint_b: mint_b.key,
                                amount: amount_offered,
                                receive_amount: amount_required,
                                bump,
                                vault_bump,
                            },
                        },
                    ],
                )
            }
        }
    }
}

/// Opens an offer: `amount_offered` units of `mint_a` go from the maker's token
/// account into a new vault, and a record asking `amount_required` units of
/// `mint_b` is written.  Accounts: maker (signer), mint_a, mint_b, the maker's
/// token account for mint_a, record, vault, token program, system program, rent sysvar.
pub fn make(ids: &ProgramIds, accounts: &[AccountView], amount_offered: u64, amount_required: u64) -> (r: Result<Vec<Effect>, ProcessError>)
    ensures
        plan_view(r) == make_result(*ids, accounts@, amount_offered, amount_required),
{
    if amount_offered == 0 || amount_required == 0 {
        return Err(ProcessError::InvalidArgument);
    }
    if accounts.len() < MAKE_ACCOUNTS {
        return Err(ProcessError::NotEnoughAccountKeys);
    }
    let maker = &accounts[0];
    let mint_a = &accounts[1];
    let mint_b = &accounts[2];
    let source = &accounts[3];
    let record = &accounts[4];
    let vault = &accounts[5];
    let token_program = &accounts[6];
    let system_program = &accounts[7];
    let rent_sysvar = &accounts[8];
    if !maker.is_signer {
        return Err(ProcessError::MissingRequiredSignature);
    }
    if system_program.key != ids.system_program || token_program.key != ids.token_program {
        return Err(ProcessError::IncorrectProgramId);
    }
    if mint_a.key == mint_b.key {
        return Err(ProcessError::InvalidArgument);
    }
    if source.owner != token_program.key {
        return Err(ProcessError::InvalidAccountOwner);
    }
    let held = match unpack_token_account(source.data.as_slice()) {
        Ok(t) => t,
        Err(e) => return Err(e),
    };
    if held.owner != maker.key {
        return Err(ProcessError::IllegalOwner);
    }
    if held.mint != mint_a.key {
        return Err(ProcessError::InvalidAccountData);
    }
    if held.amount < amount_offered {
        return Err(ProcessError::InsufficientFunds);
    }
    let (record_key, bump) = match derive_record_address(&ids.program_id, &maker.key, &mint_a.key, &mint_b.key) {
        Some(found) => found,
        None => return Err(ProcessError::InvalidSeeds),
    };
    if record_key != record.key {
        return Err(ProcessError::InvalidSeeds);
    }
    let (vault_key, vault_bump) = match derive_vault_address(&ids.program_id, &record.key) {
        Some(found) => found,
        None => return Err(ProcessError::InvalidSeeds),
    };
    if vault_key != vault.key {
        return Err(ProcessError::InvalidSeeds);
    }
    if record.lamports != 0 || vault.lamports != 0 {
        return Err(ProcessError::AccountAlreadyInitialized);
    }
    let decimals = match unpack_mint_decimals(mint_a.data.as_slice()) {
        Ok(d) => d,
        Err(e) => return Err(e),
    };
    let mut plan: Vec<Effect> = Vec::new();
    plan.push(
        Effect::CreateAccount {
            payer: maker.key,
            account: record.key,
            space: ESCROW_LEN as u64,
            owner: ids.program_id,
            rent_sysvar: rent_sysvar.key,
            signer: Authority::Record {
                maker: maker.key,
                mint_a: mint_a.key,
                mint_b: mint_b.key,
                bump,
            },
        },
    );
    plan.push(
        Effect::CreateAccount {
            payer: maker.key,
            account: vault.key,
            space: TOKEN_ACCOUNT_LEN as u64,
            owner: token_program.key,
            rent_sysvar: rent_sysvar.key,
            signer: Authority::Vault { record: record.key, bump: vault_bump },
        },
    );
    plan.push(
        Effect::InitializeTokenAccount { account: vault.key, mint: mint_a.key, holder: record.key },
    );
    plan.push(
        Effect::Transfer {
            source: source.key,
            mint: mint_a.key,
            destination: vault.key,
            authority: maker.key,
            amount: amount_offered,
            decimals,
            signer: None,
        },
    );
    plan.push(
        Effect::WriteRecord {
            account: record.key,
            record: Escrow {
                owner: maker.key,
                mint_a: mint_a.key,
                mint_b: mint_b.key,
                amount: amount_offered,
                receive_amount: amount_required,
                bump,
                vault_bump,
            },
        },
    );
    proof {
        assert(plan@ =~= make_result(*ids, accounts@, amount_offered, amount_required)->Ok_0);
    }
    Ok(plan)
}

/// The checks on the record and the vault that Take and Refund share; on success
/// the bump of the record address.
pub open spec fn record_check(
    ids: ProgramIds,
    maker: AccountView,
    mint_a: AccountView,
    mint_b: AccountView,
    record: AccountView,
    vault: AccountView,
) -> Result<u8, ProcessError> {
    let d = record.data@;
    if record.owner != ids.program_id {
        Err(ProcessError::InvalidAccountOwner)
    } else if d.len() != ESCROW_LEN {
        Err(ProcessError::InvalidAccountData)
    } else if !record_is_open(d) {
        Err(ProcessError::UninitializedAccount)
    } else {
        let ra = record_address(ids.program_id, maker.key, mint_a.key, mint_b.key);
        let va = vault_address(ids.program_id, record.key);
        if ra is None || ra->Some_0.0 != record.key.bytes@ {
            Err(ProcessError::InvalidSeeds)
        } else if stored_owner(d) != maker.key.bytes@ || stored_mint_a(d) != mint_a.key.bytes@
            || stored_mint_b(d) != mint_b.key.bytes@ {
            Err(ProcessError::InvalidAccountData)
        } else if va is None || va->Some_0.0 != vault.key.bytes@ {
            Err(ProcessError::InvalidSeeds)
        } else {
            Ok(ra->Some_0.1)
        }
    }
}

/// Reads the record of an open offer and checks that it, and the vault, sit at the
/// addresses derived from the maker and the two mints.
fn check_record(
    ids: &ProgramIds,
    maker: &AccountView,
    mint_a: &AccountView,
    mint_b: &AccountView,
    record: &AccountView,
    vault: &AccountView,
) -> (r: Result<(Escrow, u8), ProcessError>)
    ensures
        match r {
            Ok((e, bump)) => record_check(*ids, *maker, *mint_a, *mint_b, *record, *vault) == Ok::<
                u8,
                ProcessError,
            >(bump) && escrow_layout(record.data@, e),
            Err(x) => record_check(*ids, *maker, *mint_a, *mint_b, *record, *vault) == Err::<
                u8,
                ProcessError,
            >(x),
        },
{
    if record.owner != ids.program_id {
        return Err(ProcessError::InvalidAccountOwner);
    }
    let escrow = match Escrow::unpack(record.data.as_slice()) {
        Ok(e) => e,
        Err(e) => return Err(e),
    };
    if !escrow.is_open() {
        return Err(ProcessError::UninitializedAccount);
    }
    let (record_key, bump) = match derive_record_address(&ids.program_id, &maker.key, &mint_a.key, &mint_b.key) {
        Some(found) => found,
        None => return Err(ProcessError::InvalidSeeds),
    };
    if record_key != record.key {
        return Err(ProcessError::InvalidSeeds);
    }
    if escrow.owner != maker.key || escrow.mint_a != mint_a.key || escrow.mint_b != mint_b.key {
        return Err(ProcessError::InvalidAccountData);
    }
    let (vault_key, _vault_bump) = match derive_vault_address(&ids.program_id, &record.key) {
        Some(found) => found,
        None => return Err(ProcessError::InvalidSeeds),
    };
    if vault_key != vault.key {
        return Err(ProcessError::InvalidSeeds);
    }
    Ok((escrow, bump))
}

/// The check that `acc` is a token account of the token program, for `mint`,
/// held by `holder`; on success its balance.
pub open spec fn holding_check(
    token_program: Address,
    acc: AccountView,
    holder: Address,
    mint: Address,
) -> Result<u64, ProcessError> {
    let d = acc.data@;
    if acc.owner != token_program {
        Err(ProcessError::InvalidAccountOwner)
    } else if token_account_status(d) is Err {
        Err(token_account_status(d)->Err_0)
    } else if token_holder(d) != holder.bytes@ {
        Err(ProcessError::Escrow(EscrowError::InvalidUser))
    } else if token_mint(d) != mint.bytes@ {
        Err(ProcessError::Escrow(EscrowError::InvalidMint))
    } else {
        Ok(token_balance(d))
    }
}

/// Checks that `acc` is a token account for `mint` held by `holder`, and reads its balance.
fn check_holding(token_program: &Address, acc: &AccountView, holder: &Address, mint: &Address) -> (r:
    Result<u64, ProcessError>)
    ensures
        r == holding_check(*token_program, *acc, *holder, *mint),
{
    if acc.owner != *token_program {
        return Err(ProcessError::InvalidAccountOwner);
    }
    let held = match unpack_token_account(acc.data.as_slice()) {
        Ok(t) => t,
        Err(e) => return Err(e),
    };
    if held.owner != *holder {
        return Err(ProcessError::Escrow(EscrowError::InvalidUser));
    }
    if held.mint != *mint {
        return Err(ProcessError::Escrow(EscrowError::InvalidMint));
    }
    Ok(held.amount)
}

/// Positions of the accounts of Take.
pub const TAKE_ACCOUNTS: usize = 11;

/// The outcome of Take on `accs` paying `amount`: the checks in order, then the
/// plan that settles the offer.
pub open spec fn take_result(ids: ProgramIds, accs: Seq<AccountView>, amount: u64) -> Result<
    Seq<Effect>,
    ProcessError,
> {
    if amount == 0 {
        Err(ProcessError::InvalidArgument)
    } else if accs.len() < TAKE_ACCOUNTS {
        Err(ProcessError::NotEnoughAccountKeys)
    } else {
        let taker = accs[0];
        let maker = accs[1];
        let mint_a = accs[2];
        let mint_b = accs[3];
        let taker_a = accs[4];
        let taker_b = accs[5];
        let maker_b = accs[6];
        let record = accs[7];
        let vault = accs[8];
        let system_program = accs[9];
        let token_program = accs[10];
        let d = record.data@;
        let rc = record_check(ids, maker, mint_a, mint_b, record, vault);
        let pay = holding_check(token_program.key, taker_b, taker.key, mint_b.key);
        let receive = holding_check(token_program.key, maker_b, maker.key, mint_b.key);
        let held = holding_check(token_program.key, vault, record.key, mint_a.key);
        if !taker.is_signer {
            Err(ProcessError::MissingRequiredSignature)
        } else if system_program.key != ids.system_program || token_program.key != ids.token_program {
            Err(ProcessError::IncorrectProgramId)
        } else if d.len() != ESCROW_LEN {
            Err(ProcessError::InvalidAccountData)
        } else if amount != stored_required(d) {
            Err(ProcessError::InvalidArgument)
        } else if rc is Err {
            Err(rc->Err_0)
        } else if pay is Err {
            Err(pay->Err_0)
        } else if pay->Ok_0 < amount {
            Err(ProcessError::InsufficientFunds)
        } else if receive is Err {
            Err(receive->Err_0)
        } else if held is Err {
            Err(held->Err_0)
        } else if held->Ok_0 < stored_amount(d) {
            Err(ProcessError::InsufficientFunds)
        } else if mint_status(mint_a.data@) is Err {
            Err(mint_status(mint_a.data@)->Err_0)
        } else if mint_status(mint_b.data@) is Err {
            Err(mint_status(mint_b.data@)->Err_0)
        } else {
            let signer = Authority::Record {
                maker: maker.key,
                mint_a: mint_a.key,
                mint_b: mint_b.key,
                bump: rc->Ok_0,
            };
            Ok(
                seq![
                    Effect::Transfer {
                        source: taker_b.key,
                        mint: mint_b.key,
                        destination: maker_b.key,
                        authority: taker.key,
                        amount,
                        decimals: mint_decimals(mint_b.data@),
                        signer: None,
                    },
                    Effect::Transfer {
                        source: vault.key,
                        mint: mint_a.key,
                        destination: taker_a.key,
                        authority: record.key,
                        amount: stored_amount(d),
                        decimals: mint_decimals(mint_a.data@),
                        signer: Some(signer),
                    },
                    Effect::CloseTokenAccount {
                        account: vault.key,
                        destination: maker.key,
                        authority: record.key,
                        signer,
                    },
                    Effect::ReclaimRecord { account: record.key, destination: maker.key },
                ],
            )
        }
    }
}

/// Settles an offer: the taker pays the required units of `mint_b` to the maker and
/// receives the vault's units of `mint_a`; the vault is closed and the record
/// reclaimed, both in favour of the maker.  Accounts: taker (signer), maker,
/// mint_a, mint_b, the taker's token accounts for mint_a and mint_b, the maker's
/// token account for mint_b, record, vault, system program, token program.
pub fn take(ids: &ProgramIds, accounts: &[AccountView], amount: u64) -> (r: Result<
    Vec<Effect>,
    ProcessError,
>)
    ensures
        plan_view(r) == take_result(*ids, accounts@, amount),
{
    if amount == 0 {
        return Err(ProcessError::InvalidArgument);
    }
    if accounts.len() < TAKE_ACCOUNTS {
        return Err(ProcessError::NotEnoughAccountKeys);
    }
    let taker = &accounts[0];
    let maker = &accounts[1];
    let mint_a = &accounts[2];
    let mint_b = &accounts[3];
    let taker_a = &accounts[4];
    let taker_b = &accounts[5];
    let maker_b = &accounts[6];
    let record = &accounts[7];
    let vault = &accounts[8];
    let system_program = &accounts[9];
    let token_program = &accounts[10];
    if !taker.is_signer {
        return Err(ProcessError::MissingRequiredSignature);
    }
    if system_program.key != ids.system_program || token_program.key != ids.token_program {
        return Err(ProcessError::IncorrectProgramId);
    }
    let stored = match Escrow::unpack(record.data.as_slice()) {
        Ok(e) => e,
        Err(e) => return Err(e),
    };
    if amount != stored.receive_amount {
        return Err(ProcessError::InvalidArgument);
    }
    let (escrow, bump) = match check_record(ids, maker, mint_a, mint_b, record, vault) {
        Ok(found) => found,
        Err(e) => return Err(e),
    };
    let paying = match check_holding(&token_program.key, taker_b, &taker.key, &mint_b.key) {
        Ok(b) => b,
        Err(e) => return Err(e),
    };
    if paying < amount {
        return Err(ProcessError::InsufficientFunds);
    }
    match check_holding(&token_program.key, maker_b, &maker.key, &mint_b.key) {
        Ok(_) => {},
        Err(e) => return Err(e),
    }
    let held = match check_holding(&token_program.key, vault, &record.key, &mint_a.key) {
        Ok(b) => b,
        Err(e) => return Err(e),
    };
    if held < escrow.amount {
        return Err(ProcessError::InsufficientFunds);
    }
    let decimals_a = match unpack_mint_decimals(mint_a.data.as_slice()) {
        Ok(d) => d,
        Err(e) => return Err(e),
    };
    let decimals_b = match unpack_mint_decimals(mint_b.data.as_slice()) {
        Ok(d) => d,
        Err(e) => return Err(e),
    };
    let signer = Authority::Record {
        maker: maker.key,
        mint_a: mint_a.key,
        mint_b: mint_b.key,
        bump,
    };
    let mut plan: Vec<Effect> = Vec::new();
    plan.push(
        Effect::Transfer {
            source: taker_b.key,
            mint: mint_b.key,
            destination: maker_b.key,
            authority: taker.key,
            amount,
            decimals: decimals_b,
            signer: None,
        },
    );
    plan.push(
        Effect::Transfer {
            source: vault.key,
            mint: mint_a.key,
            destination: taker_a.key,
            authority: record.key,
            amount: escrow.amount,
            decimals: decimals_a,
            signer: Some(signer),
        },
    );
    plan.push(
        Effect::CloseTokenAccount {
            account: vault.key,
            destination: maker.key,
            authority: record.key,
            signer,
        },
    );
    plan.push(Effect::ReclaimRecord { account: record.key, destination: maker.key });
    proof {
        assert(plan@ =~= take_result(*ids, accounts@, amount)->Ok_0);
    }
    Ok(plan)
}

/// Positions of the accounts of Refund.
pub const REFUND_ACCOUNTS: usize = 7;

/// The outcome of Refund on `accs`: the checks in order, then the plan that hands
/// the vault back to the maker.
pub open spec fn refund_result(ids: ProgramIds, accs: Seq<AccountView>) -> Result<
    Seq<Effect>,
    ProcessError,
> {
    if accs.len() < REFUND_ACCOUNTS {
        Err(ProcessError::NotEnoughAccountKeys)
    } else {
        let maker = accs[0];
        let mint_a = accs[1];
        let mint_b = accs[2];
        let maker_a = accs[3];
        let record = accs[4];
        let vault = accs[5];
        let token_program = accs[6];
        let rc = record_check(ids, maker, mint_a, mint_b, record, vault);
        let held = holding_check(token_program.key, vault, record.key, mint_a.key);
        let back = holding_check(token_program.key, maker_a, maker.key, mint_a.key);
        if !maker.is_signer {
            Err(ProcessError::MissingRequiredSignature)
        } else if token_program.key != ids.token_program {
            Err(ProcessError::IncorrectProgramId)
        } else if rc is Err {
            Err(rc->Err_0)
        } else if held is Err {
            Err(held->Err_0)
        } else if back is Err {
            Err(back->Err_0)
        } else if mint_status(mint_a.data@) is Err {
            Err(mint_status(mint_a.data@)->Err_0)
        } else {
            let signer = Authority::Record {
                maker: maker.key,
                mint_a: mint_a.key,
                mint_b: mint_b.key,
                bump: rc->Ok_0,
            };
            Ok(
                seq![
                    Effect::Transfer {
                        source: vault.key,
                        mint: mint_a.key,
                        destination: maker_a.key,
                        authority: record.key,
                        amount: held->Ok_0,
                        decimals: mint_decimals(mint_a.data@),
                        signer: Some(signer),
                    },
                    Effect::CloseTokenAccount {
                        account: vault.key,
                        destination: maker.key,
                        authority: record.key,
                        signer,
                    },
                    Effect::ReclaimRecord { account: record.key, destination: maker.key },
                ],
            )
        }
    }
}

/// Cancels an offer: the vault's whole balance goes back to the maker's own token
/// account for `mint_a`, then the vault is closed and the record reclaimed.
/// Accounts: maker (signer), mint_a, mint_b, the maker's token account for
/// mint_a, record, vault, token program.
pub fn refund(ids: &ProgramIds, accounts: &[AccountView]) -> (r: Result<Vec<Effect>, ProcessError>)
    ensures
        plan_view(r) == refund_result(*ids, accounts@),
{
    if accounts.len() < REFUND_ACCOUNTS {
        return Err(ProcessError::NotEnoughAccountKeys);
    }
    let maker = &accounts[0];
    let mint_a = &accounts[1];
    let mint_b = &accounts[2];
    let maker_a = &accounts[3];
    let record = &accounts[4];
    let vault = &accounts[5];
    let token_program = &accounts[6];
    if !maker.is_signer {
        return Err(ProcessError::MissingRequiredSignature);
    }
    if token_program.key != ids.token_program {
        return Err(ProcessError::IncorrectProgramId);
    }
    let (_escrow, bump) = match check_record(ids, maker, mint_a, mint_b, record, vault) {
        Ok(found) => found,
        Err(e) => return Err(e),
    };
    let held = match check_holding(&token_program.key, vault, &record.key, &mint_a.key) {
        Ok(b) => b,
        Err(e) => return Err(e),
    };
    match check_holding(&token_program.key, maker_a, &maker.key, &mint_a.key) {
        Ok(_) => {},
        Err(e) => return Err(e),
    }
    let decimals = match unpack_mint_decimals(mint_a.data.as_slice()) {
        Ok(d) => d,
        Err(e) => return Err(e),
    };
    let signer = Authority::Record {
        maker: maker.key,
        mint_a: mint_a.key,
        mint_b: mint_b.key,
        bump,
    };
    let mut plan: Vec<Effect> = Vec::new();
    plan.push(
        Effect::Transfer {
            source: vault.key,
            mint: mint_a.key,
            destination: maker_a.key,
            authority: record.key,
            amount: held,
            decimals,
            signer: Some(signer),
        },
    );
    plan.push(
        Effect::CloseTokenAccount {
            account: vault.key,
            destination: maker.key,
            authority: record.key,
            signer,
        },
    );
    plan.push(Effect::ReclaimRecord { account: record.key, destination: maker.key });
    proof {
        assert(plan@ =~= refund_result(*ids, accounts@)->Ok_0);
    }
    Ok(plan)
}

/// The outcome of an instruction payload on `accs`.
pub open spec fn process_result(ids: ProgramIds, accs: Seq<AccountView>, data: Seq<u8>) -> Result<
    Seq<Effect>,
    ProcessError,
> {
    match decode_instruction(data) {
        None => Err(ProcessError::InvalidInstructionData),
        Some(EscrowInstructions::Make { amount_offered, amount_required }) => make_result(
            ids,
            accs,
            amount_offered,
            amount_required,
        ),
        Some(EscrowInstructions::Take { amount }) => take_result(ids, accs, amount),
        Some(EscrowInstructions::Refund) => refund_result(ids, accs),
    }
}

/// Decodes an instruction payload and runs the transition it names.
pub fn process(ids: &ProgramIds, accounts: &[AccountView], instruction_data: &[u8]) -> (r: Result<
    Vec<Effect>,
    ProcessError,
>)
    ensures
        plan_view(r) == process_result(*ids, accounts@, instruction_data@),
{
    match EscrowInstructions::unpack(instruction_data) {
        Ok(EscrowInstructions::Make { amount_offered, amount_required }) => make(
            ids,
            accounts,
            amount_offered,
            amount_required,
        ),
        Ok(EscrowInstructions::Take { amount }) => take(ids, accounts, amount),
        Ok(EscrowInstructions::Refund) => refund(ids, accounts),
        Err(e) => Err(e),
    }
}

/// The balances after all lamports of `source` move to `destination`: the new
/// destination balance and zero, or `None` when the sum does not fit.
pub fn drain_lamports(destination: u64, source: u64) -> (r: Option<(u64, u64)>)
    ensures
        destination + source <= u64::MAX ==> r == Some(((destination + source) as u64, 0u64)),
        destination + source > u64::MAX ==> r is None,
{
    match destination.checked_add(source) {
        Some(total) => Some((total, 0)),
        None => None,
    }
}

} // verus!
