//! What holds of the payloads of a service that keeps its books: the
//! balances of an account add up, and the ids by which the records of a
//! budget refer to one another resolve within the budget.
//!
//! Nothing here repairs a payload. The checks say whether a payload is as it
//! should be, and where it first is not.

use crate::models::{
    Account, AccountsResponse, BudgetDetail, BudgetSummary, Category, PatchTransactionsWrapper,
    Payee, PayeeLocation, ScheduledSubTransaction, ScheduledTransactionSummary, SubTransaction,
    TransactionSummary,
};
use crate::sync::Record;
use crate::text::same;
use vstd::prelude::*;

verus! {

impl Account {
    /// Whether the balances add up: the balance is the cleared balance plus
    /// the uncleared balance.
    pub open spec fn balanced(&self) -> bool {
        self.balance == self.cleared_balance + self.uncleared_balance
    }

    /// Whether the balances add up.
    pub fn is_balanced(&self) -> (balanced: bool)
        ensures
            balanced == self.balanced(),
    {
        self.balance as i128 == self.cleared_balance as i128 + self.uncleared_balance as i128
    }
}

/// Whether the balances of every account of `accounts` add up.
pub open spec fn all_balanced(accounts: Seq<Account>) -> bool {
    forall|i: int| 0 <= i < accounts.len() ==> (#[trigger] accounts[i]).balanced()
}

/// The position of the first account whose balances do not add up, if there
/// is one.
pub fn first_unbalanced(accounts: &Vec<Account>) -> (found: Option<usize>)
    ensures
        found is None <==> all_balanced(accounts@),
        found matches Some(at) ==> at < accounts.len() && !accounts@[at as int].balanced()
            && all_balanced(accounts@.take(at as int)),
{
    let mut i: usize = 0;
    while i < accounts.len()
        invariant
            i <= accounts.len(),
            all_balanced(accounts@.take(i as int)),
        decreases accounts.len() - i,
    {
        if !accounts[i].is_balanced() {
            return Some(i);
        }
        assert forall|j: int| 0 <= j < i + 1 implies (#[trigger] accounts@.take(
            i + 1,
        )[j]).balanced() by {
            if j < i {
                assert(accounts@.take(i as int)[j] == accounts@[j]);
            }
        }
        i += 1;
    }
    assert(accounts@.take(accounts.len() as int) =~= accounts@);
    None
}

impl AccountsResponse {
    /// Whether the balances of every account of the listing add up.
    pub open spec fn well_formed(&self) -> bool {
        all_balanced(self.data.accounts@)
    }

    /// Whether the balances of every account of the listing add up.
    pub fn is_well_formed(&self) -> (well_formed: bool)
        ensures
            well_formed == self.well_formed(),
    {
        first_unbalanced(&self.data.accounts).is_none()
    }
}

impl BudgetSummary {
    /// The accounts listed with the budget: none where the listing was not
    /// asked to include them.
    pub open spec fn listed(&self) -> Seq<Account> {
        match self.accounts {
            Some(accounts) => accounts@,
            None => Seq::empty(),
        }
    }

    /// Whether the balances of every account listed with the budget add up.
    /// A summary without accounts is well formed.
    pub open spec fn well_formed(&self) -> bool {
        all_balanced(self.listed())
    }

    /// The number of accounts listed with the budget: zero where the listing
    /// was not asked to include them.
    pub fn account_count(&self) -> (count: usize)
        ensures
            count == self.listed().len(),
    {
        match &self.accounts {
            Some(accounts) => accounts.len(),
            None => 0,
        }
    }

    /// Whether the balances of every account listed with the budget add up.
    pub fn is_well_formed(&self) -> (well_formed: bool)
        ensures
            well_formed == self.well_formed(),
            self.accounts is None ==> well_formed,
    {
        match &self.accounts {
            Some(accounts) => first_unbalanced(accounts).is_none(),
            None => true,
        }
    }
}

impl Category {
    /// Whether the category has a goal.
    pub open spec fn goal(&self) -> bool {
        self.goal_type is Some
    }

    /// Whether the goal fields agree: a category without a goal carries none
    /// of them.
    pub open spec fn goal_agrees(&self) -> bool {
        self.goal() || (self.goal_day is None && self.goal_cadence is None
            && self.goal_cadence_frequency is None && self.goal_creation_month is None
            && self.goal_target is None && self.goal_target_month is None
            && self.goal_percentage_complete is None && self.goal_months_to_budget is None
            && self.goal_under_funded is None && self.goal_overall_funded is None
            && self.goal_overall_left is None)
    }

    /// Whether the category has a goal.
    pub fn has_goal(&self) -> (goal: bool)
        ensures
            goal == self.goal(),
    {
        self.goal_type.is_some()
    }

    /// Whether the goal fields agree.
    pub fn goal_fields_agree(&self) -> (agree: bool)
        ensures
            agree == self.goal_agrees(),
    {
        self.goal_type.is_some() || (self.goal_day.is_none() && self.goal_cadence.is_none()
            && self.goal_cadence_frequency.is_none() && self.goal_creation_month.is_none()
            && self.goal_target.is_none() && self.goal_target_month.is_none()
            && self.goal_percentage_complete.is_none() && self.goal_months_to_budget.is_none()
            && self.goal_under_funded.is_none() && self.goal_overall_funded.is_none()
            && self.goal_overall_left.is_none())
    }
}

impl PatchTransactionsWrapper {
    /// Whether every entry says which transaction it updates.
    pub open spec fn identified(&self) -> bool {
        forall|i: int|
            0 <= i < self.transactions@.len() ==> (#[trigger] self.transactions@[i]).id is Some
    }

    /// Whether every entry says which transaction it updates: an update
    /// without an id cannot be sent.
    pub fn is_identified(&self) -> (identified: bool)
        ensures
            identified == self.identified(),
    {
        let mut i: usize = 0;
        while i < self.transactions.len()
            invariant
                i <= self.transactions.len(),
                forall|j: int| 0 <= j < i ==> (#[trigger] self.transactions@[j]).id is Some,
            decreases self.transactions.len() - i,
        {
            if self.transactions[i].id.is_none() {
                return false;
            }
            i += 1;
        }
        true
    }
}

/// Whether one of `records` is held under `key`.
pub open spec fn has_key<R: Record>(records: Seq<R>, key: Seq<char>) -> bool {
    exists|i: int| 0 <= i < records.len() && (#[trigger] records[i]).key() == key
}

/// Whether a reference resolves among `records`: it is null, or one of the
/// records is held under it.
pub open spec fn resolves<R: Record>(records: Seq<R>, id: Option<String>) -> bool {
    match id {
        Some(id) => has_key(records, id@),
        None => true,
    }
}

/// Whether one of `records` is held under `id`.
pub fn holds_key<R: Record>(records: &Vec<R>, id: &str) -> (held: bool)
    ensures
        held == has_key(records@, id@),
{
    let mut i: usize = 0;
    while i < records.len()
        invariant
            i <= records.len(),
            forall|j: int| 0 <= j < i ==> (#[trigger] records@[j]).key() != id@,
        decreases records.len() - i,
    {
        if same(records[i].id().as_str(), id) {
            return true;
        }
        i += 1;
    }
    false
}

/// Whether a reference resolves among `records`.
pub fn resolves_in<R: Record>(records: &Vec<R>, id: &Option<String>) -> (resolved: bool)
    ensures
        resolved == resolves(records@, *id),
{
    match id {
        Some(id) => holds_key(records, id.as_str()),
        None => true,
    }
}

impl BudgetDetail {
    /// Whether the references of a payee resolve within the budget.
    pub open spec fn payee_resolves(&self, payee: Payee) -> bool {
        resolves(self.accounts@, payee.transfer_account_id)
    }

    /// Whether the references of a payee location resolve within the budget.
    pub open spec fn location_resolves(&self, location: PayeeLocation) -> bool {
        has_key(self.payees@, location.payee_id@)
    }

    /// Whether the references of a transaction resolve within the budget.
    pub open spec fn transaction_resolves(&self, transaction: TransactionSummary) -> bool {
        &&& has_key(self.accounts@, transaction.account_id@)
        &&& resolves(self.payees@, transaction.payee_id)
        &&& resolves(self.categories@, transaction.category_id)
        &&& resolves(self.accounts@, transaction.transfer_account_id)
    }

    /// Whether the references of a sub-transaction resolve within the budget,
    /// its parent among them.
    pub open spec fn part_resolves(&self, part: SubTransaction) -> bool {
        &&& has_key(self.transactions@, part.transaction_id@)
        &&& resolves(self.payees@, part.payee_id)
        &&& resolves(self.categories@, part.category_id)
        &&& resolves(self.accounts@, part.transfer_account_id)
    }

    /// Whether the references of a scheduled transaction resolve within the
    /// budget.
    pub open spec fn scheduled_resolves(&self, scheduled: ScheduledTransactionSummary) -> bool {
        &&& has_key(self.accounts@, scheduled.account_id@)
        &&& resolves(self.payees@, scheduled.payee_id)
        &&& resolves(self.categories@, scheduled.category_id)
        &&& resolves(self.accounts@, scheduled.transfer_account_id)
    }

    /// Whether the references of a scheduled sub-transaction resolve within
    /// the budget, its parent among them.
    pub open spec fn scheduled_part_resolves(&self, part: ScheduledSubTransaction) -> bool {
        &&& has_key(self.scheduled_transactions@, part.scheduled_transaction_id@)
        &&& resolves(self.payees@, part.payee_id)
        &&& resolves(self.categories@, part.category_id)
        &&& resolves(self.accounts@, part.transfer_account_id)
    }

    /// Whether the collections of the budget refer to one another
    /// consistently: every account, category, payee, transfer account and
    /// parent id that a record carries is null or the id of a record of the
    /// same budget.
    pub open spec fn consistent(&self) -> bool {
        &&& forall|i: int|
            0 <= i < self.payees@.len() ==> self.payee_resolves(#[trigger] self.payees@[i])
        &&& forall|i: int|
            0 <= i < self.payee_locations@.len() ==> self.location_resolves(
                #[trigger] self.payee_locations@[i],
            )
        &&& forall|i: int|
            0 <= i < self.transactions@.len() ==> self.transaction_resolves(
                #[trigger] self.transactions@[i],
            )
        &&& forall|i: int|
            0 <= i < self.subtransactions@.len() ==> self.part_resolves(
                #[trigger] self.subtransactions@[i],
            )
        &&& forall|i: int|
            0 <= i < self.scheduled_transactions@.len() ==> self.scheduled_resolves(
                #[trigger] self.scheduled_transactions@[i],
            )
        &&& forall|i: int|
            0 <= i < self.scheduled_subtransactions@.len() ==> self.scheduled_part_resolves(
                #[trigger] self.scheduled_subtransactions@[i],
            )
    }

    /// Whether the budget is as it should be: its collections refer to one
    /// another consistently and the balances of its accounts add up.
    pub open spec fn well_formed(&self) -> bool {
        self.consistent() && all_balanced(self.accounts@)
    }

    fn payees_resolve(&self) -> (resolved: bool)
        ensures
            resolved == (forall|i: int|
                0 <= i < self.payees@.len() ==> self.payee_resolves(#[trigger] self.payees@[i])),
    {
        let mut i: usize = 0;
        while i < self.payees.len()
            invariant
                i <= self.payees.len(),
                forall|j: int| 0 <= j < i ==> self.payee_resolves(#[trigger] self.payees@[j]),
            decreases self.payees.len() - i,
        {
            if !resolves_in(&self.accounts, &self.payees[i].transfer_account_id) {
                return false;
            }
            i += 1;
        }
        true
    }

    fn locations_resolve(&self) -> (resolved: bool)
        ensures
            resolved == (forall|i: int|
                0 <= i < self.payee_locations@.len() ==> self.location_resolves(
                    #[trigger] self.payee_locations@[i],
                )),
    {
        let mut i: usize = 0;
        while i < self.payee_locations.len()
            invariant
                i <= self.payee_locations.len(),
                forall|j: int|
                    0 <= j < i ==> self.location_resolves(#[trigger] self.payee_locations@[j]),
            decreases self.payee_locations.len() - i,
        {
            if !holds_key(&self.payees, self.payee_locations[i].payee_id.as_str()) {
                return false;
            }
            i += 1;
        }
        true
    }

    fn transactions_resolve(&self) -> (resolved: bool)
        ensures
            resolved == (forall|i: int|
                0 <= i < self.transactions@.len() ==> self.transaction_resolves(
                    #[trigger] self.transactions@[i],
                )),
    {
        let mut i: usize = 0;
        while i < self.transactions.len()
            invariant
                i <= self.transactions.len(),
                forall|j: int|
                    0 <= j < i ==> self.transaction_resolves(#[trigger] self.transactions@[j]),
            decreases self.transactions.len() - i,
        {
            let transaction = &self.transactions[i];
            if !(holds_key(&self.accounts, transaction.account_id.as_str()) && resolves_in(
                &self.payees,
                &transaction.payee_id,
            ) && resolves_in(&self.categories, &transaction.category_id) && resolves_in(
                &self.accounts,
                &transaction.transfer_account_id,
            )) {
                return false;
            }
            i += 1;
        }
        true
    }

    fn parts_resolve(&self) -> (resolved: bool)
        ensures
            resolved == (forall|i: int|
                0 <= i < self.subtransactions@.len() ==> self.part_resolves(
                    #[trigger] self.subtransactions@[i],
                )),
    {
        let mut i: usize = 0;
        while i < self.subtransactions.len()
            invariant
                i <= self.subtransactions.len(),
                forall|j: int|
                    0 <= j < i ==> self.part_resolves(#[trigger] self.subtransactions@[j]),
            decreases self.subtransactions.len() - i,
        {
            let part = &self.subtransactions[i];
            if !(holds_key(&self.transactions, part.transaction_id.as_str()) && resolves_in(
                &self.payees,
                &part.payee_id,
            ) && resolves_in(&self.categories, &part.category_id) && resolves_in(
                &self.accounts,
                &part.transfer_account_id,
            )) {
                return false;
            }
            i += 1;
        }
        true
    }

    fn scheduled_resolve(&self) -> (resolved: bool)
        ensures
            resolved == (forall|i: int|
                0 <= i < self.scheduled_transactions@.len() ==> self.scheduled_resolves(
                    #[trigger] self.scheduled_transactions@[i],
                )),
    {
        let mut i: usize = 0;
        while i < self.scheduled_transactions.len()
            invariant
                i <= self.scheduled_transactions.len(),
                forall|j: int|
                    0 <= j < i ==> self.scheduled_resolves(
                        #[trigger] self.scheduled_transactions@[j],
                    ),
            decreases self.scheduled_transactions.len() - i,
        {
            let scheduled = &self.scheduled_transactions[i];
            if !(holds_key(&self.accounts, scheduled.account_id.as_str()) && resolves_in(
                &self.payees,
                &scheduled.payee_id,
            ) && resolves_in(&self.categories, &scheduled.category_id) && resolves_in(
                &self.accounts,
                &scheduled.transfer_account_id,
            )) {
                return false;
            }
            i += 1;
        }
        true
    }

    fn scheduled_parts_resolve(&self) -> (resolved: bool)
        ensures
            resolved == (forall|i: int|
                0 <= i < self.scheduled_subtransactions@.len() ==> self.scheduled_part_resolves(
                    #[trigger] self.scheduled_subtransactions@[i],
                )),
    {
        let mut i: usize = 0;
        while i < self.scheduled_subtransactions.len()
            invariant
                i <= self.scheduled_subtransactions.len(),
                forall|j: int|
                    0 <= j < i ==> self.scheduled_part_resolves(
                        #[trigger] self.scheduled_subtransactions@[j],
                    ),
            decreases self.scheduled_subtransactions.len() - i,
        {
            let part = &self.scheduled_subtransactions[i];
            if !(holds_key(
                &self.scheduled_transactions,
                part.scheduled_transaction_id.as_str(),
            )
                && resolves_in(&self.payees, &part.payee_id) && resolves_in(
                &self.categories,
                &part.category_id,
            ) && resolves_in(&self.accounts, &part.transfer_account_id)) {
                return false;
            }
            i += 1;
        }
        true
    }

    /// Whether the collections of the budget refer to one another
    /// consistently.
    pub fn is_consistent(&self) -> (consistent: bool)
        ensures
            consistent == self.consistent(),
    {
        self.payees_resolve() && self.locations_resolve() && self.transactions_resolve()
            && self.parts_resolve() && self.scheduled_resolve() && self.scheduled_parts_resolve()
    }

    /// Whether the budget is as it should be.
    pub fn is_well_formed(&self) -> (well_formed: bool)
        ensures
            well_formed == self.well_formed(),
    {
        self.is_consistent() && first_unbalanced(&self.accounts).is_none()
    }
}

/// In every payload that is well formed, the balance of every account is its
/// cleared balance plus its uncleared balance.
pub proof fn lemma_balances_add_up(accounts: Seq<Account>, at: int)
    requires
        all_balanced(accounts),
        0 <= at < accounts.len(),
    ensures
        accounts[at].balance == accounts[at].cleared_balance + accounts[at].uncleared_balance,
{
}

/// In a budget that is well formed, the parent of every sub-transaction is a
/// transaction of the budget, and the account of every transaction is an
/// account of the budget.
pub proof fn lemma_parents_are_present(budget: BudgetDetail, at: int)
    requires
        budget.well_formed(),
        0 <= at < budget.subtransactions@.len(),
    ensures
        exists|i: int|
            0 <= i < budget.transactions@.len() && (#[trigger] budget.transactions@[i]).id@
                == budget.subtransactions@[at].transaction_id@ && has_key(
                budget.accounts@,
                budget.transactions@[i].account_id@,
            ),
{
    let part = budget.subtransactions@[at];
    assert(budget.part_resolves(part));
    let i = choose|i: int|
        0 <= i < budget.transactions@.len() && (#[trigger] budget.transactions@[i]).key()
            == part.transaction_id@;
    assert(budget.transaction_resolves(budget.transactions@[i]));
}

} // verus!
