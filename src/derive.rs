use vstd::prelude::*;

use crate::address::Address;

verus! {

/// The program-derived address that the ledger's search finds for `seeds` under
/// `program_id`, with its bump byte, or `None` when no bump yields one.
pub uninterp spec fn program_address(seeds: Seq<Seq<u8>>, program_id: Seq<u8>) -> Option<
    (Seq<u8>, u8),
>;

/// Relies on `Pubkey::try_find_program_address`: a search over bump bytes that
/// hashes the seeds with the program id, a function of its arguments alone.
#[verifier::external_body]
fn find_program_address(seeds: &Vec<Vec<u8>>, program_id: &Address) -> (r: Option<(Address, u8)>)
    ensures
        match r {
            Some((a, bump)) => program_address(seeds.deep_view(), program_id.bytes@) == Some(
                (a.bytes@, bump),
            ),
            None => program_address(seeds.deep_view(), program_id.bytes@) is None,
        },
{
    let slices: Vec<&[u8]> = seeds.iter().map(|s| s.as_slice()).collect();
    let program = solana_pubkey::Pubkey::new_from_array(program_id.bytes);
    solana_pubkey::Pubkey::try_find_program_address(&slices, &program).map(
        |(a, bump)| (Address { bytes: a.to_bytes() }, bump),
    )
}

/// The domain tag of record addresses: the bytes of "escrow".
pub open spec fn record_tag() -> Seq<u8> {
    seq![101u8, 115u8, 99u8, 114u8, 111u8, 119u8]
}

/// The domain tag of vault addresses: the bytes of "vault".
pub open spec fn vault_tag() -> Seq<u8> {
    seq![118u8, 97u8, 117u8, 108u8, 116u8]
}

/// Seeds of the record address of one offer.
pub open spec fn record_seeds(maker: Address, mint_a: Address, mint_b: Address) -> Seq<Seq<u8>> {
    seq![record_tag(), maker.bytes@, mint_a.bytes@, mint_b.bytes@]
}

/// Seeds of the vault address that belongs to a record.
pub open spec fn vault_seeds(record: Address) -> Seq<Seq<u8>> {
    seq![vault_tag(), record.bytes@]
}

/// The record address of an offer, with its bump.
pub open spec fn record_address(
    program_id: Address,
    maker: Address,
    mint_a: Address,
    mint_b: Address,
) -> Option<(Seq<u8>, u8)> {
    program_address(record_seeds(maker, mint_a, mint_b), program_id.bytes@)
}

/// The vault address of a record, with its bump.
pub open spec fn vault_address(program_id: Address, record: Address) -> Option<(Seq<u8>, u8)> {
    program_address(vault_seeds(record), program_id.bytes@)
}

fn address_bytes(a: &Address) -> (r: Vec<u8>)
    ensures
        r@ == a.bytes@,
{
    let mut out: Vec<u8> = Vec::new();
    a.append_to(&mut out);
    out
}

/// The seeds of the record address of an offer.
pub fn make_record_seeds(maker: &Address, mint_a: &Address, mint_b: &Address) -> (r: Vec<Vec<u8>>)
    ensures
        r.deep_view() == record_seeds(*maker, *mint_a, *mint_b),
{
    let tag: Vec<u8> = vec![101u8, 115u8, 99u8, 114u8, 111u8, 119u8];
    let mut seeds: Vec<Vec<u8>> = Vec::new();
    seeds.push(tag);
    seeds.push(address_bytes(maker));
    seeds.push(address_bytes(mint_a));
    seeds.push(address_bytes(mint_b));
    proof {
        let d = seeds.deep_view();
        assert(d[0] =~= record_tag());
        assert(d[1] =~= maker.bytes@);
        assert(d[2] =~= mint_a.bytes@);
        assert(d[3] =~= mint_b.bytes@);
        assert(d =~= record_seeds(*maker, *mint_a, *mint_b));
    }
    seeds
}

/// The seeds of the vault address of a record.
pub fn make_vault_seeds(record: &Address) -> (r: Vec<Vec<u8>>)
    ensures
        r.deep_view() == vault_seeds(*record),
{
    let tag: Vec<u8> = vec![118u8, 97u8, 117u8, 108u8, 116u8];
    let mut seeds: Vec<Vec<u8>> = Vec::new();
    seeds.push(tag);
    seeds.push(address_bytes(record));
    proof {
        let d = seeds.deep_view();
        assert(d[0] =~= vault_tag());
        assert(d[1] =~= record.bytes@);
        assert(d =~= vault_seeds(*record));
    }
    seeds
}

/// Derives the record address of an offer made by `maker` of `mint_a` for `mint_b`.
pub fn derive_record_address(
    program_id: &Address,
    maker: &Address,
    mint_a: &Address,
    mint_b: &Address,
) -> (r: Option<(Address, u8)>)
    ensures
        match r {
            Some((a, bump)) => record_address(*program_id, *maker, *mint_a, *mint_b) == Some(
                (a.bytes@, bump),
            ),
            None => record_address(*program_id, *maker, *mint_a, *mint_b) is None,
        },
{
    let seeds = make_record_seeds(maker, mint_a, mint_b);
    find_program_address(&seeds, program_id)
}

/// Derives the vault address that belongs to `record`.
pub fn derive_vault_address(program_id: &Address, record: &Address) -> (r: Option<(Address, u8)>)
    ensures
        match r {
            Some((a, bump)) => vault_address(*program_id, *record) == Some((a.bytes@, bump)),
            None => vault_address(*program_id, *record) is None,
        },
{
    let seeds = make_vault_seeds(record);
    find_program_address(&seeds, program_id)
}

/// The record address depends on the maker and the two mints alone, and any change
/// to one of them changes the seeds it is derived from.
pub proof fn lemma_record_seeds_determine_inputs(
    program_id: Address,
    maker: Address,
    mint_a: Address,
    mint_b: Address,
    maker2: Address,
    mint_a2: Address,
    mint_b2: Address,
)
    ensures
        record_address(program_id, maker, mint_a, mint_b) == program_address(
            record_seeds(maker, mint_a, mint_b),
            program_id.bytes@,
        ),
        record_seeds(maker, mint_a, mint_b) == record_seeds(maker2, mint_a2, mint_b2) ==> (maker
            == maker2 && mint_a == mint_a2 && mint_b == mint_b2),
{
    let s = record_seeds(maker, mint_a, mint_b);
    let t = record_seeds(maker2, mint_a2, mint_b2);
    if s == t {
        assert(s[1] == t[1]);
        assert(s[2] == t[2]);
        assert(s[3] == t[3]);
        assert(maker.bytes == maker2.bytes);
        assert(mint_a.bytes == mint_a2.bytes);
        assert(mint_b.bytes == mint_b2.bytes);
    }
}

} // verus!
