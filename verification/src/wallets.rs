//! What the smart wallets of every program share: an heir with a percentage,
//! the total of a list of percentages, and the payouts that a balance is split
//! into.
//!
//! Shares are rounded down and the remainder is not handed to anyone: it stays
//! in the wallet's account.

use vstd::prelude::*;
use crate::accounts::CoinTransfer;
use crate::pubkey::Pubkey;
use crate::shares::{heir_share, lemma_share_bounds, share_of, FULL_ALLOCATION};

verus! {

/// Most heirs that a wallet may name.
pub const MAX_HEIRS: usize = 10;

/// An heir of a smart wallet and the percentage of the balance that goes to it.
#[derive(Clone, Copy, Debug, PartialEq, Eq)]
pub struct HeirData {
    pub heir_pubkey: Pubkey,
    pub allocation_percentage: u8,
}

/// The sum of the percentages of `heirs`.
pub open spec fn allocation_total(heirs: Seq<HeirData>) -> int
    decreases heirs.len(),
{
    if heirs.len() == 0 {
        0
    } else {
        allocation_total(heirs.drop_last()) + heirs.last().allocation_percentage
    }
}

/// Whether no heir of the list is given more than a hundred percent.
pub open spec fn percentages_in_range(heirs: Seq<HeirData>) -> bool {
    forall|i: int| 0 <= i < heirs.len() ==> (#[trigger] heirs[i]).allocation_percentage <= FULL_ALLOCATION
}

/// The payouts that split `amount` among `heirs`, in the order of the list:
/// each heir's share out of `from`, but no payout for a share of zero.
pub open spec fn payouts(from: Pubkey, heirs: Seq<HeirData>, amount: int) -> Seq<CoinTransfer>
    decreases heirs.len(),
{
    if heirs.len() == 0 {
        Seq::empty()
    } else {
        let before = payouts(from, heirs.drop_last(), amount);
        let share = share_of(amount, heirs.last().allocation_percentage as int);
        if share > 0 {
            before.push(
                CoinTransfer { from, to: heirs.last().heir_pubkey, lamports: share as u64 },
            )
        } else {
            before
        }
    }
}

/// The sum of the amounts of a list of transfers.
pub open spec fn lamports_total(transfers: Seq<CoinTransfer>) -> int
    decreases transfers.len(),
{
    if transfers.len() == 0 {
        0
    } else {
        lamports_total(transfers.drop_last()) + transfers.last().lamports
    }
}

/// The total of a list bounds each of its percentages and is never negative.
pub proof fn lemma_allocation_total_bounds(heirs: Seq<HeirData>)
    ensures
        0 <= allocation_total(heirs) <= 255 * heirs.len(),
        forall|i: int|
            0 <= i < heirs.len() ==> (#[trigger] heirs[i]).allocation_percentage
                <= allocation_total(heirs),
    decreases heirs.len(),
{
    if heirs.len() > 0 {
        lemma_allocation_total_bounds(heirs.drop_last());
        assert forall|i: int| 0 <= i < heirs.len() implies (#[trigger] heirs[i]).allocation_percentage
            <= allocation_total(heirs) by {
            if i < heirs.len() - 1 {
                assert(heirs[i] == heirs.drop_last()[i]);
            }
        }
    }
}

/// Adding an heir at the end of a list adds its percentage to the total.
pub proof fn lemma_allocation_total_push(heirs: Seq<HeirData>, heir: HeirData)
    ensures
        allocation_total(heirs.push(heir)) == allocation_total(heirs) + heir.allocation_percentage,
{
    assert(heirs.push(heir).drop_last() == heirs);
}

/// Replacing an entry of a list changes the total by the difference of the
/// two percentages.
pub proof fn lemma_allocation_total_update(heirs: Seq<HeirData>, i: int, heir: HeirData)
    requires
        0 <= i < heirs.len(),
    ensures
        allocation_total(heirs.update(i, heir)) == allocation_total(heirs)
            - heirs[i].allocation_percentage + heir.allocation_percentage,
    decreases heirs.len(),
{
    if i == heirs.len() - 1 {
        assert(heirs.update(i, heir).drop_last() == heirs.drop_last());
    } else {
        lemma_allocation_total_update(heirs.drop_last(), i, heir);
        assert(heirs.update(i, heir).drop_last() == heirs.drop_last().update(i, heir));
    }
}

/// A list whose percentages add up to a hundred gives no heir more than a
/// hundred.
pub proof fn lemma_full_allocation_in_range(heirs: Seq<HeirData>)
    requires
        allocation_total(heirs) == FULL_ALLOCATION,
    ensures
        percentages_in_range(heirs),
{
    lemma_allocation_total_bounds(heirs);
}

/// Every payout of a split goes out of `from` and to an heir that the list
/// names; there is at most one per heir, and none is empty.
pub proof fn lemma_payouts_shape(from: Pubkey, heirs: Seq<HeirData>, amount: int)
    requires
        0 <= amount <= u64::MAX,
        percentages_in_range(heirs),
    ensures
        payouts(from, heirs, amount).len() <= heirs.len(),
        forall|j: int|
            0 <= j < payouts(from, heirs, amount).len() ==> {
                let t = #[trigger] payouts(from, heirs, amount)[j];
                t.from == from && t.lamports > 0 && names_heir(heirs, t.to)
            },
    decreases heirs.len(),
{
    if heirs.len() > 0 {
        let rest = heirs.drop_last();
        assert forall|i: int| 0 <= i < rest.len() implies (#[trigger] rest[i]).allocation_percentage
            <= FULL_ALLOCATION by {
            assert(rest[i] == heirs[i]);
        }
        lemma_payouts_shape(from, rest, amount);
        lemma_share_bounds(amount, heirs.last().allocation_percentage as int);
        assert forall|j: int| 0 <= j < payouts(from, heirs, amount).len() implies {
            let t = #[trigger] payouts(from, heirs, amount)[j];
            t.from == from && t.lamports > 0 && names_heir(heirs, t.to)
        } by {
            let t = payouts(from, heirs, amount)[j];
            if j < payouts(from, rest, amount).len() {
                assert(t == payouts(from, rest, amount)[j]);
                let i = choose|i: int| 0 <= i < rest.len() && (#[trigger] rest[i]).heir_pubkey == t.to;
                assert(heirs[i].heir_pubkey == t.to);
            } else {
                assert(heirs[heirs.len() - 1].heir_pubkey == t.to);
            }
        }
    }
}

/// What rounding down costs: a hundred times the total paid is at most the
/// amount times the total of the percentages, and short of it by at most
/// ninety-nine for each heir.
pub proof fn lemma_payouts_total(from: Pubkey, heirs: Seq<HeirData>, amount: int)
    requires
        0 <= amount <= u64::MAX,
        percentages_in_range(heirs),
    ensures
        0 <= lamports_total(payouts(from, heirs, amount)),
        100 * lamports_total(payouts(from, heirs, amount)) <= amount * allocation_total(heirs),
        amount * allocation_total(heirs) - 100 * lamports_total(payouts(from, heirs, amount)) <= 99
            * heirs.len(),
    decreases heirs.len(),
{
    if heirs.len() == 0 {
        assert(amount * 0 == 0);
    } else {
        let rest = heirs.drop_last();
        let p = heirs.last().allocation_percentage as int;
        assert(percentages_in_range(rest)) by {
            assert forall|i: int| 0 <= i < rest.len() implies (#[trigger] rest[i]).allocation_percentage
                <= FULL_ALLOCATION by {
                assert(rest[i] == heirs[i]);
            }
        }
        lemma_payouts_total(from, rest, amount);
        lemma_share_bounds(amount, p);
        let share = share_of(amount, p);
        let before = payouts(from, rest, amount);
        assert(100 * share <= amount * p && amount * p - 100 * share <= 99) by {
            assert(amount * p == 100 * (amount * p / 100) + (amount * p) % 100);
        }
        assert(amount * allocation_total(heirs) == amount * allocation_total(rest) + amount * p)
            by (nonlinear_arith)
            requires
                allocation_total(heirs) == allocation_total(rest) + p,
        ;
        if share > 0 {
            let t = CoinTransfer { from, to: heirs.last().heir_pubkey, lamports: share as u64 };
            assert(payouts(from, heirs, amount) == before.push(t));
            assert(before.push(t).drop_last() == before);
            assert(lamports_total(before.push(t)) == lamports_total(before) + share);
        }
    }
}

/// A wallet whose percentages add up to a hundred never pays out more than
/// its balance, and what rounding leaves behind is less than one unit for each
/// heir.
pub proof fn lemma_full_allocation_loss(from: Pubkey, heirs: Seq<HeirData>, amount: int)
    requires
        0 <= amount <= u64::MAX,
        heirs.len() > 0,
        allocation_total(heirs) == FULL_ALLOCATION,
    ensures
        lamports_total(payouts(from, heirs, amount)) <= amount,
        amount - lamports_total(payouts(from, heirs, amount)) < heirs.len(),
{
    lemma_full_allocation_in_range(heirs);
    lemma_payouts_total(from, heirs, amount);
}

/// Whether `heirs` names the heir `key`.
pub open spec fn names_heir(heirs: Seq<HeirData>, key: Pubkey) -> bool {
    exists|i: int| 0 <= i < heirs.len() && (#[trigger] heirs[i]).heir_pubkey == key
}

/// Whether position `i` is the first of `heirs` that names the heir `key`.
pub open spec fn is_first_entry_of(heirs: Seq<HeirData>, key: Pubkey, i: int) -> bool {
    &&& 0 <= i < heirs.len()
    &&& heirs[i].heir_pubkey == key
    &&& forall|j: int| 0 <= j < i ==> (#[trigger] heirs[j]).heir_pubkey != key
}

/// The first position of `heirs` that names the heir `key`, where there is
/// one.
pub open spec fn first_entry_of(heirs: Seq<HeirData>, key: Pubkey) -> int
    recommends
        names_heir(heirs, key),
{
    choose|i: int| is_first_entry_of(heirs, key, i)
}

/// A list that names an heir has a first position that does.
pub proof fn lemma_first_entry_exists(heirs: Seq<HeirData>, key: Pubkey, k: int)
    requires
        0 <= k < heirs.len(),
        heirs[k].heir_pubkey == key,
    ensures
        is_first_entry_of(heirs, key, first_entry_of(heirs, key)),
    decreases k,
{
    if exists|j: int| 0 <= j < k && (#[trigger] heirs[j]).heir_pubkey == key {
        let j = choose|j: int| 0 <= j < k && (#[trigger] heirs[j]).heir_pubkey == key;
        lemma_first_entry_exists(heirs, key, j);
    } else {
        assert(is_first_entry_of(heirs, key, k));
    }
}

/// A first position is the only one.
pub proof fn lemma_first_entry_unique(heirs: Seq<HeirData>, key: Pubkey, i: int)
    requires
        is_first_entry_of(heirs, key, i),
    ensures
        first_entry_of(heirs, key) == i,
        names_heir(heirs, key),
{
    let c = first_entry_of(heirs, key);
    assert(is_first_entry_of(heirs, key, c));
    if c < i {
        assert(heirs[c].heir_pubkey != key);
    }
    if i < c {
        assert(heirs[i].heir_pubkey != key);
    }
}

/// Finds the first position of `heirs` that names the heir `key`.
pub fn find_heir(heirs: &Vec<HeirData>, key: &Pubkey) -> (found: Option<usize>)
    ensures
        match found {
            Some(i) => is_first_entry_of(heirs@, *key, i as int) && first_entry_of(heirs@, *key)
                == i,
            None => !names_heir(heirs@, *key),
        },
        found is Some <==> names_heir(heirs@, *key),
{
    let mut i: usize = 0;
    while i < heirs.len()
        invariant
            i <= heirs@.len(),
            forall|j: int| 0 <= j < i ==> (#[trigger] heirs@[j]).heir_pubkey != *key,
        decreases heirs@.len() - i,
    {
        if heirs[i].heir_pubkey == *key {
            proof {
                lemma_first_entry_unique(heirs@, *key, i as int);
            }
            return Some(i);
        }
        i += 1;
    }
    None
}

/// Adds up the percentages of `heirs`.
pub fn total_allocation(heirs: &Vec<HeirData>) -> (total: u128)
    ensures
        total == allocation_total(heirs@),
{
    let mut total: u128 = 0;
    let mut i: usize = 0;
    while i < heirs.len()
        invariant
            i <= heirs@.len(),
            total == allocation_total(heirs@.take(i as int)),
            total <= 255 * i,
        decreases heirs@.len() - i,
    {
        proof {
            assert(heirs@.take(i + 1).drop_last() == heirs@.take(i as int));
        }
        total = total + heirs[i].allocation_percentage as u128;
        i += 1;
    }
    proof {
        assert(heirs@.take(i as int) == heirs@);
    }
    total
}

/// Splits `amount` among `heirs`.
pub fn distribute(from: Pubkey, heirs: &Vec<HeirData>, amount: u64) -> (transfers: Vec<CoinTransfer>)
    requires
        percentages_in_range(heirs@),
    ensures
        transfers@ == payouts(from, heirs@, amount as int),
{
    let mut transfers: Vec<CoinTransfer> = Vec::new();
    let mut i: usize = 0;
    while i < heirs.len()
        invariant
            i <= heirs@.len(),
            percentages_in_range(heirs@),
            transfers@ == payouts(from, heirs@.take(i as int), amount as int),
        decreases heirs@.len() - i,
    {
        proof {
            assert(heirs@.take(i + 1).drop_last() == heirs@.take(i as int));
        }
        let share: u64 = heir_share(amount, heirs[i].allocation_percentage);
        if share > 0 {
            transfers.push(CoinTransfer { from, to: heirs[i].heir_pubkey, lamports: share });
        }
        i += 1;
    }
    proof {
        assert(heirs@.take(i as int) == heirs@);
    }
    transfers
}

} // verus!
