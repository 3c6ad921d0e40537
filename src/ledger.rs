use vstd::prelude::*;

use crate::address::{lemma_address_eq, Address};
use crate::processor::Effect;
use crate::state::encode_escrow;

verus! {

broadcast use lemma_address_eq;

/// A token account as the token program keeps it.
pub struct Holding {
    pub mint: Address,
    pub holder: Address,
    pub amount: nat,
}

/// The part of the ledger that the escrow's effects act on: token accounts,
/// lamport balances, and account data.
pub struct Ledger {
    pub holdings: Map<Address, Holding>,
    pub lamports: Map<Address, nat>,
    pub data: Map<Address, Seq<u8>>,
}

/// The lamports of `a`; an account the ledger does not hold has none.
pub open spec fn lamports_of(l: Ledger, a: Address) -> nat {
    if l.lamports.contains_key(a) {
        l.lamports[a]
    } else {
        0
    }
}

/// `n` zero bytes.
pub open spec fn zeros(n: nat) -> Seq<u8> {
    Seq::new(n, |i: int| 0u8)
}

/// Moves every lamport of `from` to `to`.
pub open spec fn move_lamports(l: Ledger, from: Address, to: Address) -> Map<Address, nat> {
    l.lamports.insert(to, lamports_of(l, to) + lamports_of(l, from)).insert(from, 0)
}

/// The ledger after one effect, or `None` where the ledger or the token program
/// would refuse it.  Rent funding of new accounts is left out.
pub open spec fn apply_effect(l: Ledger, e: Effect) -> Option<Ledger> {
    match e {
        Effect::CreateAccount { account, space, .. } => {
            if lamports_of(l, account) != 0 {
                None
            } else {
                Some(Ledger { data: l.data.insert(account, zeros(space as nat)), ..l })
            }
        },
        Effect::InitializeTokenAccount { account, mint, holder } => {
            if l.holdings.contains_key(account) {
                None
            } else {
                Some(
                    Ledger {
                        holdings: l.holdings.insert(account, Holding { mint, holder, amount: 0 }),
                        ..l
                    },
                )
            }
        },
        Effect::Transfer { source, mint, destination, authority, amount, .. } => {
            if !l.holdings.contains_key(source) || !l.holdings.contains_key(destination) {
                None
            } else {
                let s = l.holdings[source];
                let d = l.holdings[destination];
                if s.mint != mint || d.mint != mint || s.holder != authority || s.amount < amount {
                    None
                } else if source == destination {
                    Some(l)
                } else {
                    let h = l.holdings.insert(source, Holding { amount: (s.amount - amount) as nat, ..s }).insert(
                        destination,
                        Holding { amount: (d.amount + amount) as nat, ..d },
                    );
                    Some(Ledger { holdings: h, ..l })
                }
            }
        },
        Effect::CloseTokenAccount { account, destination, authority, .. } => {
            if !l.holdings.contains_key(account) || account == destination {
                None
            } else {
                let s = l.holdings[account];
                if s.amount != 0 || s.holder != authority {
                    None
                } else {
                    Some(
                        Ledger {
                            holdings: l.holdings.remove(account),
                            lamports: move_lamports(l, account, destination),
                            ..l
                        },
                    )
                }
            }
        },
        Effect::WriteRecord { account, record } => {
            if !l.data.contains_key(account) || l.data[account].len() != encode_escrow(
                record,
            ).len() {
                None
            } else {
                Some(Ledger { data: l.data.insert(account, encode_escrow(record)), ..l })
            }
        },
        Effect::ReclaimRecord { account, destination } => {
            if !l.data.contains_key(account) || account == destination {
                None
            } else {
                Some(
                    Ledger {
                        lamports: move_lamports(l, account, destination),
                        data: l.data.insert(account, zeros(l.data[account].len())),
                        ..l
                    },
                )
            }
        },
    }
}

/// The ledger after a plan's effects in order, or `None` if one is refused;
/// a refused plan leaves no trace, as the ledger aborts the whole transaction.
pub open spec fn apply_plan(l: Ledger, p: Seq<Effect>) -> Option<Ledger>
    decreases p.len(),
{
    if p.len() == 0 {
        Some(l)
    } else {
        match apply_effect(l, p[0]) {
            None => None,
            Some(next) => apply_plan(next, p.drop_first()),
        }
    }
}

} // verus!
