use vstd::prelude::*;

use crate::address::Address;
use crate::codec::le_u64;
use crate::error::ProcessError;
use solana_program_pack::Pack;

verus! {

/// What the escrow reads of a token account: its asset, its holder and its balance.
#[derive(Debug, Clone, Copy)]
pub struct TokenAccount {
    pub mint: Address,
    pub owner: Address,
    pub amount: u64,
}

/// Length of a token account's data.
pub const TOKEN_ACCOUNT_LEN: usize = 165;

/// Length of a mint's data.
pub const MINT_LEN: usize = 82;

/// The four-byte tag of an optional field at `d[at..at + 4]` is "none" or "some".
pub open spec fn option_tag_ok(d: Seq<u8>, at: int) -> bool {
    (d[at] == 0 || d[at] == 1) && d[at + 1] == 0 && d[at + 2] == 0 && d[at + 3] == 0
}

/// Whether `d` reads as an initialized token account, and if not, why.
pub open spec fn token_account_status(d: Seq<u8>) -> Result<(), ProcessError> {
    if d.len() != TOKEN_ACCOUNT_LEN || !option_tag_ok(d, 72) || d[108] > 2 || !option_tag_ok(
        d,
        109,
    ) || !option_tag_ok(d, 129) {
        Err(ProcessError::InvalidAccountData)
    } else if d[108] == 0 {
        Err(ProcessError::UninitializedAccount)
    } else {
        Ok(())
    }
}

/// The asset of token account data `d`.
pub open spec fn token_mint(d: Seq<u8>) -> Seq<u8> {
    d.subrange(0, 32)
}

/// The holder of token account data `d`.
pub open spec fn token_holder(d: Seq<u8>) -> Seq<u8> {
    d.subrange(32, 64)
}

/// The balance of token account data `d`.
pub open spec fn token_balance(d: Seq<u8>) -> u64 {
    le_u64(d.subrange(64, 72))
}

/// `t` holds the fields stored in the token account data `d`.
pub open spec fn token_account_fields(d: Seq<u8>, t: TokenAccount) -> bool {
    &&& t.mint.bytes@ == token_mint(d)
    &&& t.owner.bytes@ == token_holder(d)
    &&& t.amount == token_balance(d)
}

/// Whether `d` reads as an initialized mint, and if not, why.
pub open spec fn mint_status(d: Seq<u8>) -> Result<(), ProcessError> {
    if d.len() != MINT_LEN || !option_tag_ok(d, 0) || d[45] > 1 || !option_tag_ok(d, 46) {
        Err(ProcessError::InvalidAccountData)
    } else if d[45] == 0 {
        Err(ProcessError::UninitializedAccount)
    } else {
        Ok(())
    }
}

/// The decimals stored in mint data `d`.
pub open spec fn mint_decimals(d: Seq<u8>) -> u8 {
    d[44]
}

/// Relies on `Pack::unpack` for the token program's `Account`: a 165-byte layout
/// of mint, owner, little-endian amount, then optional delegate, state byte,
/// optional native amount, delegated amount and optional close authority; it
/// refuses bad tags or states, and an account in the uninitialized state.
#[verifier::external_body]
pub(crate) fn unpack_token_account(data: &[u8]) -> (r: Result<TokenAccount, ProcessError>)
    ensures
        match r {
            Ok(t) => token_account_status(data@) is Ok && token_account_fields(data@, t),
            Err(e) => token_account_status(data@) == Err::<(), ProcessError>(e),
        },
{
    match spl_token_interface::state::Account::unpack(data) {
        Ok(a) => Ok(
            TokenAccount {
                mint: Address { bytes: a.mint.to_bytes() },
                owner: Address { bytes: a.owner.to_bytes() },
                amount: a.amount,
            },
        ),
        Err(solana_program_error::ProgramError::UninitializedAccount) => Err(
            ProcessError::UninitializedAccount,
        ),
        Err(_) => Err(ProcessError::InvalidAccountData),
    }
}

/// Relies on `Pack::unpack` for the token program's `Mint`: an 82-byte layout of
/// optional mint authority, supply, decimals, an initialized flag and an optional
/// freeze authority; it refuses bad tags or flags, and an uninitialized mint.
#[verifier::external_body]
pub(crate) fn unpack_mint_decimals(data: &[u8]) -> (r: Result<u8, ProcessError>)
    ensures
        match r {
            Ok(d) => mint_status(data@) is Ok && d == mint_decimals(data@),
            Err(e) => mint_status(data@) == Err::<(), ProcessError>(e),
        },
{
    match spl_token_interface::state::Mint::unpack(data) {
        Ok(m) => Ok(m.decimals),
        Err(solana_program_error::ProgramError::UninitializedAccount) => Err(
            ProcessError::UninitializedAccount,
        ),
        Err(_) => Err(ProcessError::InvalidAccountData),
    }
}

} // verus!
