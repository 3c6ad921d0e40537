use vstd::prelude::*;

use crate::address::lemma_address_eq;
use crate::codec::lemma_le_zero;
use crate::derive::{record_address, vault_address};
use crate::ledger::{apply_effect, apply_plan, lamports_of, zeros, Ledger};
use crate::processor::{
    make_result, record_check, refund_result, take_result, AccountView, ProgramIds, MAKE_ACCOUNTS,
    REFUND_ACCOUNTS, TAKE_ACCOUNTS,
};
use crate::state::{
    encode_escrow, lemma_escrow_round_trip, record_is_open, stored_amount, stored_mint_a,
    stored_mint_b, stored_owner, stored_required,
};
use crate::token::{token_balance, token_holder, token_mint};

verus! {

broadcast use lemma_address_eq;

/// The ledger holds the token account `acc` as its data describes it.
pub open spec fn holds_as_seen(l: Ledger, acc: AccountView) -> bool {
    let d = acc.data@;
    &&& l.holdings.contains_key(acc.key)
    &&& l.holdings[acc.key].mint.bytes@ == token_mint(d)
    &&& l.holdings[acc.key].holder.bytes@ == token_holder(d)
    &&& l.holdings[acc.key].amount == token_balance(d)
}

/// A successful Make, carried out on a ledger that agrees with the accounts it
/// was shown, leaves the vault holding exactly the offered amount of `mint_a`,
/// takes that amount from the maker's token account, and stores a record whose
/// fields are the instruction's inputs.
pub proof fn lemma_make_opens_offer(
    ids: ProgramIds,
    accs: Seq<AccountView>,
    amount_offered: u64,
    amount_required: u64,
    l: Ledger,
)
    requires
        make_result(ids, accs, amount_offered, amount_required) is Ok,
        holds_as_seen(l, accs[3]),
        !l.holdings.contains_key(accs[5].key),
        lamports_of(l, accs[4].key) == accs[4].lamports,
        lamports_of(l, accs[5].key) == accs[5].lamports,
        accs[4].key != accs[5].key,
    ensures
        ({
            let plan = make_result(ids, accs, amount_offered, amount_required)->Ok_0;
            let maker = accs[0].key;
            let source = accs[3].key;
            let record = accs[4].key;
            let vault = accs[5].key;
            &&& apply_plan(l, plan) is Some
            &&& apply_plan(l, plan)->Some_0.holdings[vault].amount == amount_offered
            &&& apply_plan(l, plan)->Some_0.holdings[vault].mint == accs[1].key
            &&& apply_plan(l, plan)->Some_0.holdings[vault].holder == record
            &&& apply_plan(l, plan)->Some_0.holdings[source].amount == l.holdings[source].amount
                - amount_offered
            &&& stored_owner(apply_plan(l, plan)->Some_0.data[record]) == maker.bytes@
            &&& stored_mint_a(apply_plan(l, plan)->Some_0.data[record]) == accs[1].key.bytes@
            &&& stored_mint_b(apply_plan(l, plan)->Some_0.data[record]) == accs[2].key.bytes@
            &&& stored_amount(apply_plan(l, plan)->Some_0.data[record]) == amount_offered
            &&& stored_required(apply_plan(l, plan)->Some_0.data[record]) == amount_required
        }),
{
    let plan = make_result(ids, accs, amount_offered, amount_required)->Ok_0;
    let l1 = apply_effect(l, plan[0])->Some_0;
    let l2 = apply_effect(l1, plan[1])->Some_0;
    let l3 = apply_effect(l2, plan[2])->Some_0;
    let l4 = apply_effect(l3, plan[3])->Some_0;
    let l5 = apply_effect(l4, plan[4])->Some_0;
    assert(apply_effect(l, plan[0]) is Some);
    assert(apply_effect(l1, plan[1]) is Some);
    assert(apply_effect(l2, plan[2]) is Some);
    assert(accs[3].key != accs[5].key);
    assert(apply_effect(l3, plan[3]) is Some);
    assert(apply_effect(l4, plan[4]) is Some);
    let p1 = plan.drop_first();
    let p2 = p1.drop_first();
    let p3 = p2.drop_first();
    let p4 = p3.drop_first();
    let p5 = p4.drop_first();
    assert(p5.len() == 0);
    assert(apply_plan(l4, p4) == apply_plan(l5, p5));
    assert(apply_plan(l3, p3) == apply_plan(l4, p4));
    assert(apply_plan(l2, p2) == apply_plan(l3, p3));
    assert(apply_plan(l1, p1) == apply_plan(l2, p2));
    assert(apply_plan(l, plan) == apply_plan(l1, p1));
    let e = plan[4]->record;
    lemma_escrow_round_trip(e, e);
    assert(l5.data[accs[4].key] == encode_escrow(e));
}

/// Make refuses, and so changes nothing, when an amount is zero, when the two
/// mints are the same, when the maker did not sign, when the record or vault
/// account is not at its derived address, or when either already holds lamports.
pub proof fn lemma_make_refusals(
    ids: ProgramIds,
    accs: Seq<AccountView>,
    amount_offered: u64,
    amount_required: u64,
)
    ensures
        amount_offered == 0 || amount_required == 0 ==> make_result(
            ids,
            accs,
            amount_offered,
            amount_required,
        ) is Err,
        accs.len() < MAKE_ACCOUNTS ==> make_result(ids, accs, amount_offered, amount_required) is Err,
        accs.len() >= MAKE_ACCOUNTS && accs[1].key == accs[2].key ==> make_result(
            ids,
            accs,
            amount_offered,
            amount_required,
        ) is Err,
        accs.len() >= MAKE_ACCOUNTS && !accs[0].is_signer ==> make_result(
            ids,
            accs,
            amount_offered,
            amount_required,
        ) is Err,
        accs.len() >= MAKE_ACCOUNTS && (forall|b: u8|
            record_address(ids.program_id, accs[0].key, accs[1].key, accs[2].key) != Some(
                (accs[4].key.bytes@, b),
            )) ==> make_result(ids, accs, amount_offered, amount_required) is Err,
        accs.len() >= MAKE_ACCOUNTS && (forall|b: u8|
            vault_address(ids.program_id, accs[4].key) != Some((accs[5].key.bytes@, b)))
            ==> make_result(ids, accs, amount_offered, amount_required) is Err,
        accs.len() >= MAKE_ACCOUNTS && (accs[4].lamports != 0 || accs[5].lamports != 0)
            ==> make_result(ids, accs, amount_offered, amount_required) is Err,
{
    if accs.len() >= MAKE_ACCOUNTS {
        let ra = record_address(ids.program_id, accs[0].key, accs[1].key, accs[2].key);
        let va = vault_address(ids.program_id, accs[4].key);
        if ra is Some {
            assert(ra == Some((ra->Some_0.0, ra->Some_0.1)));
        }
        if va is Some {
            assert(va == Some((va->Some_0.0, va->Some_0.1)));
        }
    }
}

/// A successful Take, carried out on a ledger that agrees with the accounts it was
/// shown and whose vault holds exactly the offered amount, moves the required
/// amount of `mint_b` from the taker to the maker and the offered amount of
/// `mint_a` from the vault to the taker, closes the vault, zeroes the record, and
/// hands the lamports of both to the maker.  It succeeds only when the amount
/// paid is the stored required amount.
pub proof fn lemma_take_settles_offer(ids: ProgramIds, accs: Seq<AccountView>, amount: u64, l: Ledger)
    requires
        take_result(ids, accs, amount) is Ok,
        holds_as_seen(l, accs[5]),
        holds_as_seen(l, accs[6]),
        holds_as_seen(l, accs[8]),
        l.holdings.contains_key(accs[4].key),
        l.holdings[accs[4].key].mint == accs[2].key,
        token_balance(accs[8].data@) == stored_amount(accs[7].data@),
        l.data.contains_key(accs[7].key),
        accs[5].key != accs[6].key,
        accs[4].key != accs[8].key,
        accs[1].key != accs[8].key,
        accs[1].key != accs[7].key,
        accs[7].key != accs[8].key,
    ensures
        amount == stored_required(accs[7].data@),
        ({
            let after = apply_plan(l, take_result(ids, accs, amount)->Ok_0);
            let maker = accs[1].key;
            let taker_a = accs[4].key;
            let taker_b = accs[5].key;
            let maker_b = accs[6].key;
            let record = accs[7].key;
            let vault = accs[8].key;
            &&& after is Some
            &&& after->Some_0.holdings[taker_b].amount == l.holdings[taker_b].amount - amount
            &&& after->Some_0.holdings[maker_b].amount == l.holdings[maker_b].amount + amount
            &&& after->Some_0.holdings[taker_a].amount == l.holdings[taker_a].amount
                + stored_amount(accs[7].data@)
            &&& !after->Some_0.holdings.contains_key(vault)
            &&& after->Some_0.data[record] == zeros(l.data[record].len())
            &&& lamports_of(after->Some_0, record) == 0
            &&& lamports_of(after->Some_0, vault) == 0
            &&& lamports_of(after->Some_0, maker) == lamports_of(l, maker) + lamports_of(l, vault)
                + lamports_of(l, record)
        }),
{
    let plan = take_result(ids, accs, amount)->Ok_0;
    assert(record_is_open(accs[7].data@));
    assert(accs[2].key != accs[3].key);
    let l1 = apply_effect(l, plan[0])->Some_0;
    assert(apply_effect(l, plan[0]) is Some);
    let l2 = apply_effect(l1, plan[1])->Some_0;
    assert(apply_effect(l1, plan[1]) is Some);
    let l3 = apply_effect(l2, plan[2])->Some_0;
    assert(apply_effect(l2, plan[2]) is Some);
    let l4 = apply_effect(l3, plan[3])->Some_0;
    assert(apply_effect(l3, plan[3]) is Some);
    let p1 = plan.drop_first();
    let p2 = p1.drop_first();
    let p3 = p2.drop_first();
    let p4 = p3.drop_first();
    assert(p4.len() == 0);
    assert(apply_plan(l3, p3) == apply_plan(l4, p4));
    assert(apply_plan(l2, p2) == apply_plan(l3, p3));
    assert(apply_plan(l1, p1) == apply_plan(l2, p2));
    assert(apply_plan(l, plan) == apply_plan(l1, p1));
}

/// A successful Refund, carried out on a ledger that agrees with the accounts it
/// was shown and whose vault holds exactly the offered amount, returns that amount
/// to the maker's own token account for `mint_a`, closes the vault, zeroes the record,
/// hands the lamports of both to the maker, and leaves every other token account,
/// those of `mint_b` among them, as it was.
pub proof fn lemma_refund_returns_offer(ids: ProgramIds, accs: Seq<AccountView>, l: Ledger)
    requires
        refund_result(ids, accs) is Ok,
        holds_as_seen(l, accs[5]),
        holds_as_seen(l, accs[3]),
        token_balance(accs[5].data@) == stored_amount(accs[4].data@),
        l.data.contains_key(accs[4].key),
        accs[0].key != accs[5].key,
        accs[0].key != accs[4].key,
        accs[4].key != accs[5].key,
    ensures
        ({
            let after = apply_plan(l, refund_result(ids, accs)->Ok_0);
            let maker = accs[0].key;
            let maker_a = accs[3].key;
            let record = accs[4].key;
            let vault = accs[5].key;
            &&& after is Some
            &&& after->Some_0.holdings[maker_a].amount == l.holdings[maker_a].amount
                + stored_amount(accs[4].data@)
            &&& !after->Some_0.holdings.contains_key(vault)
            &&& forall|k|
                l.holdings.contains_key(k) && k != maker_a && k != vault
                    ==> #[trigger] after->Some_0.holdings.contains_key(k)
                    && after->Some_0.holdings[k] == l.holdings[k]
            &&& after->Some_0.data[record] == zeros(l.data[record].len())
            &&& lamports_of(after->Some_0, record) == 0
            &&& lamports_of(after->Some_0, vault) == 0
            &&& lamports_of(after->Some_0, maker) == lamports_of(l, maker) + lamports_of(l, vault)
                + lamports_of(l, record)
        }),
{
    let plan = refund_result(ids, accs)->Ok_0;
    let l1 = apply_effect(l, plan[0])->Some_0;
    assert(apply_effect(l, plan[0]) is Some);
    let l2 = apply_effect(l1, plan[1])->Some_0;
    assert(apply_effect(l1, plan[1]) is Some);
    let l3 = apply_effect(l2, plan[2])->Some_0;
    assert(apply_effect(l2, plan[2]) is Some);
    let p1 = plan.drop_first();
    let p2 = p1.drop_first();
    let p3 = p2.drop_first();
    assert(p3.len() == 0);
    assert(apply_plan(l2, p2) == apply_plan(l3, p3));
    assert(apply_plan(l1, p1) == apply_plan(l2, p2));
    assert(apply_plan(l, plan) == apply_plan(l1, p1));
}

/// A record whose data is all zero, as Take and Refund leave it, describes no
/// open offer: every Take and every Refund shown it is refused.
pub proof fn lemma_zeroed_record_refused(
    ids: ProgramIds,
    take_accs: Seq<AccountView>,
    amount: u64,
    refund_accs: Seq<AccountView>,
)
    requires
        take_accs.len() >= TAKE_ACCOUNTS ==> take_accs[7].data@ == zeros(take_accs[7].data@.len()),
        refund_accs.len() >= REFUND_ACCOUNTS ==> refund_accs[4].data@ == zeros(
            refund_accs[4].data@.len(),
        ),
    ensures
        take_result(ids, take_accs, amount) is Err,
        refund_result(ids, refund_accs) is Err,
{
    if take_accs.len() >= TAKE_ACCOUNTS {
        lemma_zero_data_not_open(take_accs[7].data@);
    }
    if refund_accs.len() >= REFUND_ACCOUNTS {
        lemma_zero_data_not_open(refund_accs[4].data@);
    }
}

proof fn lemma_zero_data_not_open(d: Seq<u8>)
    requires
        d == zeros(d.len()),
    ensures
        d.len() == 114 ==> !record_is_open(d),
{
    if d.len() == 114 {
        lemma_le_zero(d.subrange(96, 104));
    }
}

/// Once a Take has settled an offer, a second Take or a Refund that names the same
/// record, and is shown its data as the first left it, is refused.
pub proof fn lemma_no_second_settlement_after_take(
    ids: ProgramIds,
    accs: Seq<AccountView>,
    amount: u64,
    l: Ledger,
    take_accs: Seq<AccountView>,
    amount2: u64,
    refund_accs: Seq<AccountView>,
)
    requires
        take_result(ids, accs, amount) is Ok,
        holds_as_seen(l, accs[5]),
        holds_as_seen(l, accs[6]),
        holds_as_seen(l, accs[8]),
        l.holdings.contains_key(accs[4].key),
        l.holdings[accs[4].key].mint == accs[2].key,
        token_balance(accs[8].data@) == stored_amount(accs[7].data@),
        l.data.contains_key(accs[7].key),
        accs[5].key != accs[6].key,
        accs[4].key != accs[8].key,
        accs[1].key != accs[8].key,
        accs[1].key != accs[7].key,
        accs[7].key != accs[8].key,
        take_accs.len() >= TAKE_ACCOUNTS ==> take_accs[7].data@ == apply_plan(
            l,
            take_result(ids, accs, amount)->Ok_0,
        )->Some_0.data[accs[7].key],
        refund_accs.len() >= REFUND_ACCOUNTS ==> refund_accs[4].data@ == apply_plan(
            l,
            take_result(ids, accs, amount)->Ok_0,
        )->Some_0.data[accs[7].key],
    ensures
        take_result(ids, take_accs, amount2) is Err,
        refund_result(ids, refund_accs) is Err,
{
    lemma_take_settles_offer(ids, accs, amount, l);
    lemma_zeroed_record_refused(ids, take_accs, amount2, refund_accs);
}

/// Once a Refund has cancelled an offer, a Take or a second Refund that names the
/// same record, and is shown its data as the first left it, is refused.
pub proof fn lemma_no_second_settlement_after_refund(
    ids: ProgramIds,
    accs: Seq<AccountView>,
    l: Ledger,
    take_accs: Seq<AccountView>,
    amount2: u64,
    refund_accs: Seq<AccountView>,
)
    requires
        refund_result(ids, accs) is Ok,
        holds_as_seen(l, accs[5]),
        holds_as_seen(l, accs[3]),
        token_balance(accs[5].data@) == stored_amount(accs[4].data@),
        l.data.contains_key(accs[4].key),
        accs[0].key != accs[5].key,
        accs[0].key != accs[4].key,
        accs[4].key != accs[5].key,
        take_accs.len() >= TAKE_ACCOUNTS ==> take_accs[7].data@ == apply_plan(
            l,
            refund_result(ids, accs)->Ok_0,
        )->Some_0.data[accs[4].key],
        refund_accs.len() >= REFUND_ACCOUNTS ==> refund_accs[4].data@ == apply_plan(
            l,
            refund_result(ids, accs)->Ok_0,
        )->Some_0.data[accs[4].key],
    ensures
        take_result(ids, take_accs, amount2) is Err,
        refund_result(ids, refund_accs) is Err,
{
    lemma_refund_returns_offer(ids, accs, l);
    lemma_zeroed_record_refused(ids, take_accs, amount2, refund_accs);
}

} // verus!
