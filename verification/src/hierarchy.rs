//! The transaction hierarchy: how a transaction relates to its splits in
//! each of the shapes in which the service sends it.
//!
//! In a detail listing a transaction owns its sub-transactions. With none it
//! is categorised by its own payee and category; with some it is a parent,
//! and each sub-transaction says under its own payee and category where its
//! share of the amount goes. A payee-scoped listing flattens the two levels
//! into hybrid entries, and only its discriminator tells a transaction from
//! a sub-transaction.

use crate::models::{
    HybridTransaction, Payee, ScheduledSubTransaction, ScheduledTransactionDetail, SubTransaction,
    TransactionDetail, TransactionType, TransactionsResponse,
};
use crate::text::same;
use vstd::prelude::*;

verus! {

/// Something that carries an amount of money in milliunits.
pub trait Amount {
    /// The amount in milliunits.
    spec fn value(&self) -> i64;

    /// The amount in milliunits.
    fn milliunits(&self) -> (amount: i64)
        ensures
            amount == self.value(),
    ;
}

impl Amount for SubTransaction {
    open spec fn value(&self) -> i64 {
        self.amount
    }

    fn milliunits(&self) -> (amount: i64) {
        self.amount
    }
}

impl Amount for ScheduledSubTransaction {
    open spec fn value(&self) -> i64 {
        self.amount
    }

    fn milliunits(&self) -> (amount: i64) {
        self.amount
    }
}

/// The sum of the amounts of `items`.
pub open spec fn total<A: Amount>(items: Seq<A>) -> int
    decreases items.len(),
{
    if items.len() == 0 {
        0
    } else {
        total(items.drop_last()) + items.last().value()
    }
}

/// The sum of the amounts of `items`. A sum of 64-bit amounts, however many,
/// fits in 128 bits.
pub fn sum<A: Amount>(items: &Vec<A>) -> (amount: i128)
    ensures
        amount == total(items@),
{
    let mut amount: i128 = 0;
    let mut i: usize = 0;
    while i < items.len()
        invariant
            i <= items.len(),
            amount == total(items@.take(i as int)),
            -(i as int) * 0x8000_0000_0000_0000 <= amount <= (i as int) * 0x8000_0000_0000_0000,
        decreases items.len() - i,
    {
        proof {
            assert(items@.take(i + 1).drop_last() =~= items@.take(i as int));
            assert(items@.take(i + 1).last() == items@[i as int]);
        }
        amount = amount + items[i].milliunits() as i128;
        i += 1;
    }
    assert(items@.take(items.len() as int) =~= items@);
    amount
}

/// The text of an optional id.
pub open spec fn id_text(id: Option<String>) -> Option<Seq<char>> {
    match id {
        Some(text) => Some(text@),
        None => None,
    }
}

/// A share of a transaction's amount, with the payee and the category it
/// goes to.
#[derive(Debug, Clone, PartialEq, Eq)]
pub struct Allocation {
    pub payee_id: Option<String>,
    pub category_id: Option<String>,
    pub amount: i64,
}

impl Amount for Allocation {
    open spec fn value(&self) -> i64 {
        self.amount
    }

    fn milliunits(&self) -> (amount: i64) {
        self.amount
    }
}

impl Allocation {
    /// Whether the allocation carries the given payee, category and amount.
    pub open spec fn carries(
        self,
        payee_id: Option<String>,
        category_id: Option<String>,
        amount: i64,
    ) -> bool {
        &&& id_text(self.payee_id) == id_text(payee_id)
        &&& id_text(self.category_id) == id_text(category_id)
        &&& self.amount == amount
    }
}

fn copy_id(id: &Option<String>) -> (copy: Option<String>)
    ensures
        id_text(copy) == id_text(*id),
{
    match id {
        Some(text) => Some(text.clone()),
        None => None,
    }
}

impl TransactionDetail {
    /// Whether the transaction is a parent: it has sub-transactions.
    pub open spec fn split(&self) -> bool {
        self.subtransactions@.len() > 0
    }

    /// Whether the amounts add up: a parent's sub-transactions sum to its
    /// amount. A transaction without sub-transactions has nothing to add up.
    pub open spec fn balanced(&self) -> bool {
        self.split() ==> total(self.subtransactions@) == self.amount
    }

    /// Whether `allocations` say where the amount goes: for a parent one
    /// allocation for each sub-transaction, in order, with the
    /// sub-transaction's own payee, category and amount; else a single
    /// allocation with those of the transaction.
    pub open spec fn allocated(&self, allocations: Seq<Allocation>) -> bool {
        if self.split() {
            &&& allocations.len() == self.subtransactions@.len()
            &&& forall|i: int|
                0 <= i < allocations.len() ==> (#[trigger] allocations[i]).carries(
                    self.subtransactions@[i].payee_id,
                    self.subtransactions@[i].category_id,
                    self.subtransactions@[i].amount,
                )
        } else {
            &&& allocations.len() == 1
            &&& allocations[0].carries(self.payee_id, self.category_id, self.amount)
        }
    }

    /// Whether the transaction is a parent: it has sub-transactions.
    pub fn is_split(&self) -> (split: bool)
        ensures
            split == self.split(),
    {
        self.subtransactions.len() > 0
    }

    /// The sum of the amounts of the sub-transactions.
    pub fn subtransaction_total(&self) -> (amount: i128)
        ensures
            amount == total(self.subtransactions@),
    {
        sum(&self.subtransactions)
    }

    /// Whether the amounts add up.
    pub fn is_balanced(&self) -> (balanced: bool)
        ensures
            balanced == self.balanced(),
    {
        self.subtransactions.len() == 0 || sum(&self.subtransactions) == self.amount as i128
    }

    /// Where the amount goes. The payee and the category of a parent are
    /// nominal and appear in no allocation; a sub-transaction keeps its own
    /// even where they differ from the parent's.
    pub fn allocations(&self) -> (allocations: Vec<Allocation>)
        ensures
            self.allocated(allocations@),
    {
        let mut allocations: Vec<Allocation> = Vec::new();
        if self.subtransactions.len() == 0 {
            allocations.push(
                Allocation {
                    payee_id: copy_id(&self.payee_id),
                    category_id: copy_id(&self.category_id),
                    amount: self.amount,
                },
            );
            return allocations;
        }
        let mut i: usize = 0;
        while i < self.subtransactions.len()
            invariant
                i <= self.subtransactions.len(),
                allocations.len() == i,
                forall|j: int|
                    0 <= j < i ==> (#[trigger] allocations@[j]).carries(
                        self.subtransactions@[j].payee_id,
                        self.subtransactions@[j].category_id,
                        self.subtransactions@[j].amount,
                    ),
            decreases self.subtransactions.len() - i,
        {
            let part = &self.subtransactions[i];
            allocations.push(
                Allocation {
                    payee_id: copy_id(&part.payee_id),
                    category_id: copy_id(&part.category_id),
                    amount: part.amount,
                },
            );
            i += 1;
        }
        allocations
    }
}

impl ScheduledTransactionDetail {
    /// Whether the scheduled transaction is a parent: it has
    /// sub-transactions.
    pub open spec fn split(&self) -> bool {
        self.subtransactions@.len() > 0
    }

    /// Whether the amounts add up: a parent's sub-transactions sum to its
    /// amount.
    pub open spec fn balanced(&self) -> bool {
        self.split() ==> total(self.subtransactions@) == self.amount
    }

    /// Whether the scheduled transaction is a parent.
    pub fn is_split(&self) -> (split: bool)
        ensures
            split == self.split(),
    {
        self.subtransactions.len() > 0
    }

    /// The sum of the amounts of the sub-transactions.
    pub fn subtransaction_total(&self) -> (amount: i128)
        ensures
            amount == total(self.subtransactions@),
    {
        sum(&self.subtransactions)
    }

    /// Whether the amounts add up.
    pub fn is_balanced(&self) -> (balanced: bool)
        ensures
            balanced == self.balanced(),
    {
        self.subtransactions.len() == 0 || sum(&self.subtransactions) == self.amount as i128
    }
}

/// Whether the amounts of every transaction of `transactions` add up.
pub open spec fn all_splits_balanced(transactions: Seq<TransactionDetail>) -> bool {
    forall|i: int| 0 <= i < transactions.len() ==> (#[trigger] transactions[i]).balanced()
}

/// The position of the first transaction whose sub-transactions do not sum
/// to its amount, if there is one.
pub fn first_unbalanced_split(transactions: &Vec<TransactionDetail>) -> (found: Option<usize>)
    ensures
        found is None <==> all_splits_balanced(transactions@),
        found matches Some(at) ==> at < transactions.len() && !transactions@[at as int].balanced()
            && all_splits_balanced(transactions@.take(at as int)),
{
    let mut i: usize = 0;
    while i < transactions.len()
        invariant
            i <= transactions.len(),
            all_splits_balanced(transactions@.take(i as int)),
        decreases transactions.len() - i,
    {
        if !transactions[i].is_balanced() {
            return Some(i);
        }
        assert forall|j: int| 0 <= j < i + 1 implies (#[trigger] transactions@.take(
            i + 1,
        )[j]).balanced() by {
            if j < i {
                assert(transactions@.take(i as int)[j] == transactions@[j]);
            }
        }
        i += 1;
    }
    assert(transactions@.take(transactions.len() as int) =~= transactions@);
    None
}

impl TransactionsResponse {
    /// Whether the amounts of every transaction of the listing add up.
    pub open spec fn well_formed(&self) -> bool {
        all_splits_balanced(self.data.transactions@)
    }

    /// Whether the amounts of every transaction of the listing add up.
    pub fn is_well_formed(&self) -> (well_formed: bool)
        ensures
            well_formed == self.well_formed(),
    {
        first_unbalanced_split(&self.data.transactions).is_none()
    }
}

impl Payee {
    /// Whether the payee stands for transfers to or from an account rather
    /// than for somebody who is paid.
    pub open spec fn transfer(&self) -> bool {
        self.transfer_account_id is Some
    }

    /// Whether the payee stands for transfers to or from an account.
    pub fn is_transfer(&self) -> (transfer: bool)
        ensures
            transfer == self.transfer(),
    {
        self.transfer_account_id.is_some()
    }
}

impl HybridTransaction {
    /// Whether the entry is a transaction of its own rather than a part of
    /// one.
    pub open spec fn standalone(&self) -> bool {
        self.transaction_type == TransactionType::Transaction
    }

    /// The transaction the entry is a part of: that of a sub-transaction, and
    /// none for a transaction, whatever its field holds.
    pub open spec fn parent(&self) -> Option<String> {
        if self.standalone() {
            None
        } else {
            self.parent_transaction_id
        }
    }

    /// Whether the entry counts towards the total of the account `account`:
    /// it is a transaction of its own, on that account, and not deleted.
    pub open spec fn counts_for(&self, account: Seq<char>) -> bool {
        self.standalone() && !self.deleted && self.account_id@ == account
    }

    /// Whether the entry is a transaction of its own.
    pub fn is_standalone(&self) -> (standalone: bool)
        ensures
            standalone == self.standalone(),
    {
        match self.transaction_type {
            TransactionType::Transaction => true,
            TransactionType::SubTransaction => false,
        }
    }

    /// The id of the transaction the entry is a part of. A parent id on an
    /// entry that is a transaction is ignored.
    pub fn parent_id(&self) -> (parent: Option<&String>)
        ensures
            match parent {
                Some(id) => self.parent() == Some(*id),
                None => self.parent() is None,
            },
    {
        if self.is_standalone() {
            None
        } else {
            match &self.parent_transaction_id {
                Some(id) => Some(id),
                None => None,
            }
        }
    }
}

/// The total of the account `account` as a payee-scoped listing shows it:
/// the sum of the amounts of the entries that count for it.
pub open spec fn account_sum(entries: Seq<HybridTransaction>, account: Seq<char>) -> int
    decreases entries.len(),
{
    if entries.len() == 0 {
        0
    } else if entries.last().counts_for(account) {
        account_sum(entries.drop_last(), account) + entries.last().amount
    } else {
        account_sum(entries.drop_last(), account)
    }
}

/// The total of the account `account_id` as the listing `entries` shows it.
/// Sub-transactions listed beside their parents add nothing: the parent
/// carries the whole amount.
pub fn account_total(entries: &Vec<HybridTransaction>, account_id: &str) -> (amount: i128)
    ensures
        amount == account_sum(entries@, account_id@),
{
    let mut amount: i128 = 0;
    let mut i: usize = 0;
    while i < entries.len()
        invariant
            i <= entries.len(),
            amount == account_sum(entries@.take(i as int), account_id@),
            -(i as int) * 0x8000_0000_0000_0000 <= amount <= (i as int) * 0x8000_0000_0000_0000,
        decreases entries.len() - i,
    {
        proof {
            assert(entries@.take(i + 1).drop_last() =~= entries@.take(i as int));
            assert(entries@.take(i + 1).last() == entries@[i as int]);
        }
        let entry = &entries[i];
        if entry.is_standalone() && !entry.deleted && same(entry.account_id.as_str(), account_id) {
            amount = amount + entry.amount as i128;
        }
        i += 1;
    }
    assert(entries@.take(entries.len() as int) =~= entries@);
    amount
}

/// The sum over a listing is the sum over its front plus the sum over its
/// back.
pub proof fn lemma_account_sum_concat(
    front: Seq<HybridTransaction>,
    back: Seq<HybridTransaction>,
    account: Seq<char>,
)
    ensures
        account_sum(front + back, account) == account_sum(front, account) + account_sum(
            back,
            account,
        ),
    decreases back.len(),
{
    if back.len() == 0 {
        assert(front + back =~= front);
    } else {
        assert((front + back).drop_last() =~= front + back.drop_last());
        assert((front + back).last() == back.last());
        lemma_account_sum_concat(front, back.drop_last(), account);
    }
}

/// A sub-transaction entry is not counted as a transaction of its own: with
/// or without it, wherever it stands in the listing, every account total is
/// the same.
pub proof fn lemma_sub_transaction_adds_nothing(
    entries: Seq<HybridTransaction>,
    at: int,
    account: Seq<char>,
)
    requires
        0 <= at < entries.len(),
        !entries[at].standalone(),
    ensures
        account_sum(entries, account) == account_sum(entries.remove(at), account),
{
    let front = entries.take(at);
    let back = entries.skip(at + 1);
    let one = seq![entries[at]];
    assert(entries =~= front + one + back);
    assert(entries.remove(at) =~= front + back);
    lemma_account_sum_concat(front + one, back, account);
    lemma_account_sum_concat(front, one, account);
    lemma_account_sum_concat(front, back, account);
    assert(one.drop_last() =~= Seq::<HybridTransaction>::empty());
    assert(one.last() == entries[at]);
    assert(account_sum(one.drop_last(), account) == 0);
    assert(account_sum(one, account) == 0);
}

/// Allocations that carry the amounts of the parts, one for one, sum to what
/// the parts sum to.
proof fn lemma_total_of_allocations(
    allocations: Seq<Allocation>,
    parts: Seq<SubTransaction>,
)
    requires
        allocations.len() == parts.len(),
        forall|i: int|
            0 <= i < allocations.len() ==> (#[trigger] allocations[i]).amount == parts[i].amount,
    ensures
        total(allocations) == total(parts),
    decreases allocations.len(),
{
    if allocations.len() > 0 {
        let front = allocations.drop_last();
        let parts_front = parts.drop_last();
        assert forall|i: int| 0 <= i < front.len() implies (#[trigger] front[i]).amount
            == parts_front[i].amount by {
            assert(front[i] == allocations[i]);
            assert(parts_front[i] == parts[i]);
        }
        lemma_total_of_allocations(front, parts_front);
        assert(allocations.last() == allocations[allocations.len() - 1]);
    }
}

/// The allocations of a transaction whose amounts add up account for its
/// whole amount, whether it is split or not.
pub proof fn lemma_allocations_account_for_amount(
    transaction: TransactionDetail,
    allocations: Seq<Allocation>,
)
    requires
        transaction.balanced(),
        transaction.allocated(allocations),
    ensures
        total(allocations) == transaction.amount,
{
    if transaction.split() {
        lemma_total_of_allocations(allocations, transaction.subtransactions@);
    } else {
        assert(allocations.drop_last() =~= Seq::<Allocation>::empty());
        assert(total(allocations.drop_last()) == 0);
    }
}

/// In every listing that is well formed, the sub-transactions of every
/// transaction that has some sum to the amount of the transaction.
pub proof fn lemma_split_amounts_sum_to_parent(transactions: Seq<TransactionDetail>, at: int)
    requires
        all_splits_balanced(transactions),
        0 <= at < transactions.len(),
        transactions[at].subtransactions@.len() > 0,
    ensures
        total(transactions[at].subtransactions@) == transactions[at].amount,
{
    assert(transactions[at].balanced());
}

} // verus!
