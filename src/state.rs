use vstd::prelude::*;

use crate::address::Address;
use crate::codec::{le_bytes, le_u64, lemma_le_round_trip, read_u64_le, write_u64_le};
use crate::error::ProcessError;

verus! {

/// The durable description of one open offer.
#[derive(Debug, Clone, Copy)]
pub struct Escrow {
    /// The maker.
    pub owner: Address,
    /// The asset offered.
    pub mint_a: Address,
    /// The asset asked for.
    pub mint_b: Address,
    /// Units of `mint_a` held in the vault.
    pub amount: u64,
    /// Units of `mint_b` a taker must pay.
    pub receive_amount: u64,
    /// Bump of the record's derived address.
    pub bump: u8,
    /// Bump of the vault's derived address.
    pub vault_bump: u8,
}

/// Length of the stored record: three addresses, two amounts, two bumps.
pub const ESCROW_LEN: usize = 114;

/// The stored form of a record: the fields in declaration order, amounts
/// little-endian, no padding.
pub open spec fn encode_escrow(e: Escrow) -> Seq<u8> {
    e.owner.bytes@ + e.mint_a.bytes@ + e.mint_b.bytes@ + le_bytes(e.amount) + le_bytes(
        e.receive_amount,
    ) + seq![e.bump, e.vault_bump]
}

/// `d` is the stored form of `e`.
pub open spec fn escrow_layout(d: Seq<u8>, e: Escrow) -> bool {
    &&& d.len() == ESCROW_LEN
    &&& e.owner.bytes@ == d.subrange(0, 32)
    &&& e.mint_a.bytes@ == d.subrange(32, 64)
    &&& e.mint_b.bytes@ == d.subrange(64, 96)
    &&& e.amount == le_u64(d.subrange(96, 104))
    &&& e.receive_amount == le_u64(d.subrange(104, 112))
    &&& e.bump == d[112]
    &&& e.vault_bump == d[113]
}

/// The maker stored in record data `d`.
pub open spec fn stored_owner(d: Seq<u8>) -> Seq<u8> {
    d.subrange(0, 32)
}

/// The offered asset stored in record data `d`.
pub open spec fn stored_mint_a(d: Seq<u8>) -> Seq<u8> {
    d.subrange(32, 64)
}

/// The requested asset stored in record data `d`.
pub open spec fn stored_mint_b(d: Seq<u8>) -> Seq<u8> {
    d.subrange(64, 96)
}

/// The offered amount stored in record data `d`.
pub open spec fn stored_amount(d: Seq<u8>) -> u64 {
    le_u64(d.subrange(96, 104))
}

/// The required amount stored in record data `d`.
pub open spec fn stored_required(d: Seq<u8>) -> u64 {
    le_u64(d.subrange(104, 112))
}

/// Record data `d` describes an open offer: both amounts positive, two distinct assets.
pub open spec fn record_is_open(d: Seq<u8>) -> bool {
    stored_amount(d) > 0 && stored_required(d) > 0 && stored_mint_a(d) != stored_mint_b(d)
}

impl Escrow {
    /// The record describes an open offer.
    pub fn is_open(&self) -> (r: bool)
        ensures
            r == (self.amount > 0 && self.receive_amount > 0 && self.mint_a.bytes@
                != self.mint_b.bytes@),
    {
        proof {
            crate::address::lemma_address_eq(self.mint_a, self.mint_b);
        }
        self.amount > 0 && self.receive_amount > 0 && !(self.mint_a == self.mint_b)
    }

    /// Reads a record from its stored form; a slot of any other length is refused.
    pub fn unpack(data: &[u8]) -> (r: Result<Escrow, ProcessError>)
        ensures
            data@.len() != ESCROW_LEN ==> r == Err::<Escrow, ProcessError>(
                ProcessError::InvalidAccountData,
            ),
            data@.len() == ESCROW_LEN ==> (r matches Ok(e) && escrow_layout(data@, e)),
    {
        if data.len() != ESCROW_LEN {
            return Err(ProcessError::InvalidAccountData);
        }
        let owner = Address::read(data, 0);
        let mint_a = Address::read(data, 32);
        let mint_b = Address::read(data, 64);
        let amount = read_u64_le(data, 96);
        let receive_amount = read_u64_le(data, 104);
        let bump = data[112];
        let vault_bump = data[113];
        Ok(Escrow { owner, mint_a, mint_b, amount, receive_amount, bump, vault_bump })
    }

    /// Writes the record's stored form.
    pub fn pack(&self) -> (r: Vec<u8>)
        ensures
            r@ == encode_escrow(*self),
    {
        let mut out: Vec<u8> = Vec::new();
        self.owner.append_to(&mut out);
        self.mint_a.append_to(&mut out);
        self.mint_b.append_to(&mut out);
        write_u64_le(&mut out, self.amount);
        write_u64_le(&mut out, self.receive_amount);
        out.push(self.bump);
        out.push(self.vault_bump);
        proof {
            assert(out@ =~= encode_escrow(*self));
        }
        out
    }
}

/// The stored form of a record is read back as that record, and it is the
/// only record with that stored form.
pub proof fn lemma_escrow_round_trip(e: Escrow, f: Escrow)
    ensures
        escrow_layout(encode_escrow(e), e),
        escrow_layout(encode_escrow(e), f) ==> f == e,
{
    let d = encode_escrow(e);
    assert(d.subrange(0, 32) =~= e.owner.bytes@);
    assert(d.subrange(32, 64) =~= e.mint_a.bytes@);
    assert(d.subrange(64, 96) =~= e.mint_b.bytes@);
    assert(d.subrange(96, 104) =~= le_bytes(e.amount));
    assert(d.subrange(104, 112) =~= le_bytes(e.receive_amount));
    lemma_le_round_trip(e.amount);
    lemma_le_round_trip(e.receive_amount);
    if escrow_layout(d, f) {
        assert(f.owner.bytes == e.owner.bytes);
        assert(f.mint_a.bytes == e.mint_a.bytes);
        assert(f.mint_b.bytes == e.mint_b.bytes);
    }
}

} // verus!
