use ynab_api::envelope::{interpret, Decoded, Operation, Reply};
use ynab_api::integrity::{first_unbalanced, holds_key, resolves_in};
use ynab_api::models::{
    Account, AccountType, AccountsResponse, AccountsResponseData, BudgetDetail, BudgetSummary,
    BudgetSummaryResponse, BudgetSummaryResponseData, Category, CategoryGroup, ClearedStatus,
    CurrencyFormat, DateFormat, GoalType, PatchTransactionsWrapper, Payee, PayeeLocation,
    SaveTransactionWithId, ScheduleFrequency, ScheduledSubTransaction,
    ScheduledTransactionSummary, SubTransaction, TransactionSummary,
};

fn text(value: &str) -> Option<String> {
    Some(String::from(value))
}

fn account(id: &str, balance: i64, cleared: i64, uncleared: i64) -> Account {
    Account {
        id: String::from(id),
        name: String::from("Checking"),
        account_type: AccountType::Checking,
        on_budget: true,
        closed: false,
        note: None,
        balance,
        cleared_balance: cleared,
        uncleared_balance: uncleared,
        transfer_payee_id: String::from("p-transfer"),
        direct_import_linked: None,
        direct_import_in_error: None,
        last_reconciled_at: None,
        debt_original_balance: None,
        debt_interest_rates: None,
        debt_minimum_payments: None,
        debt_escrow_amounts: None,
        deleted: false,
    }
}

fn summary(accounts: Option<Vec<Account>>) -> BudgetSummary {
    BudgetSummary {
        id: String::from("B1"),
        name: String::from("Household"),
        last_modified_on: None,
        first_month: None,
        last_month: None,
        date_format: None,
        currency_format: None,
        accounts,
    }
}

fn payee(id: &str, transfer_account: Option<&str>) -> Payee {
    Payee {
        id: String::from(id),
        name: String::from("Shop"),
        transfer_account_id: transfer_account.map(String::from),
        deleted: false,
    }
}

fn category(id: &str) -> Category {
    Category {
        id: String::from(id),
        category_group_id: String::from("g1"),
        category_group_name: None,
        name: String::from("Groceries"),
        hidden: false,
        original_category_group_id: None,
        note: None,
        budgeted: 0,
        activity: 0,
        balance: 0,
        goal_type: None,
        goal_day: None,
        goal_cadence: None,
        goal_cadence_frequency: None,
        goal_creation_month: None,
        goal_target: None,
        goal_target_month: None,
        goal_percentage_complete: None,
        goal_months_to_budget: None,
        goal_under_funded: None,
        goal_overall_funded: None,
        goal_overall_left: None,
        deleted: false,
    }
}

fn transaction(id: &str, account: &str, payee: Option<&str>, category: Option<&str>) -> TransactionSummary {
    TransactionSummary {
        id: String::from(id),
        date: String::from("2024-03-05"),
        amount: -1000,
        memo: None,
        cleared: ClearedStatus::Cleared,
        approved: true,
        flag_color: None,
        account_id: String::from(account),
        payee_id: payee.map(String::from),
        category_id: category.map(String::from),
        transfer_account_id: None,
        transfer_transaction_id: None,
        matched_transaction_id: None,
        import_id: None,
        import_payee_name: None,
        import_payee_name_original: None,
        debt_transaction_type: None,
        deleted: false,
    }
}

fn part(id: &str, parent: &str, category: Option<&str>) -> SubTransaction {
    SubTransaction {
        id: String::from(id),
        transaction_id: String::from(parent),
        amount: -500,
        memo: None,
        payee_id: None,
        payee_name: None,
        category_id: category.map(String::from),
        category_name: None,
        transfer_account_id: None,
        transfer_transaction_id: None,
        deleted: false,
    }
}

fn scheduled(id: &str, account: &str) -> ScheduledTransactionSummary {
    ScheduledTransactionSummary {
        id: String::from(id),
        date_first: String::from("2024-01-15"),
        date_next: String::from("2024-04-15"),
        frequency: ScheduleFrequency::Monthly,
        amount: -100,
        memo: None,
        flag_color: None,
        account_id: String::from(account),
        payee_id: None,
        category_id: None,
        transfer_account_id: None,
        deleted: false,
    }
}

fn scheduled_part(id: &str, parent: &str) -> ScheduledSubTransaction {
    ScheduledSubTransaction {
        id: String::from(id),
        scheduled_transaction_id: String::from(parent),
        amount: -50,
        memo: None,
        payee_id: None,
        category_id: None,
        transfer_account_id: None,
        deleted: false,
    }
}

fn budget() -> BudgetDetail {
    BudgetDetail {
        id: String::from("B1"),
        name: String::from("Household"),
        last_modified_on: String::from("2024-03-05T10:00:00Z"),
        first_month: String::from("2024-01-01"),
        last_month: String::from("2024-03-01"),
        date_format: DateFormat { format: String::from("YYYY-MM-DD") },
        currency_format: CurrencyFormat {
            iso_code: String::from("EUR"),
            example_format: String::from("123.456,78"),
            decimal_digits: 2,
            decimal_separator: String::from(","),
            symbol_first: false,
            group_separator: String::from("."),
            currency_symbol: String::from("E"),
            display_symbol: true,
        },
        accounts: vec![account("a1", 1500, 1000, 500), account("a2", 0, 0, 0)],
        payees: vec![payee("py1", None), payee("py2", Some("a2"))],
        payee_locations: vec![PayeeLocation {
            id: String::from("l1"),
            payee_id: String::from("py1"),
            latitude: String::from("40.7"),
            longitude: String::from("-74.0"),
            deleted: false,
        }],
        category_groups: vec![CategoryGroup {
            id: String::from("g1"),
            name: String::from("Group"),
            hidden: false,
            deleted: false,
        }],
        categories: vec![category("c1"), category("c2")],
        months: vec![],
        transactions: vec![
            transaction("t1", "a1", Some("py1"), Some("c1")),
            transaction("t2", "a2", None, None),
        ],
        subtransactions: vec![part("s1", "t1", Some("c2")), part("s2", "t1", None)],
        scheduled_transactions: vec![scheduled("st1", "a1")],
        scheduled_subtransactions: vec![scheduled_part("sp1", "st1")],
    }
}

#[test]
fn balances_that_add_up() {
    assert!(account("a1", 1500, 1000, 500).is_balanced());
    assert!(account("a1", 0, 0, 0).is_balanced());
    assert!(account("a1", -250, 1000, -1250).is_balanced());
    assert!(account("a1", i64::MAX, i64::MAX, 0).is_balanced());
    assert!(account("a1", i64::MIN, 0, i64::MIN).is_balanced());
}

#[test]
fn balances_that_do_not_add_up() {
    assert!(!account("a1", 1500, 1000, 499).is_balanced());
    assert!(!account("a1", 0, 1, 0).is_balanced());
    assert!(!account("a1", -2, i64::MAX, i64::MAX).is_balanced());
    assert!(!account("a1", 0, i64::MIN, i64::MIN).is_balanced());
}

#[test]
fn first_unbalanced_account_is_found() {
    assert_eq!(first_unbalanced(&vec![]), None);
    assert_eq!(first_unbalanced(&vec![account("a1", 3, 1, 2), account("a2", 0, 0, 0)]), None);
    let accounts = vec![
        account("a1", 3, 1, 2),
        account("a2", 3, 1, 1),
        account("a3", 0, 0, 0),
        account("a4", 9, 0, 0),
    ];
    assert_eq!(first_unbalanced(&accounts), Some(1));
}

#[test]
fn account_listing_is_well_formed_when_every_account_is() {
    let good = AccountsResponse {
        data: AccountsResponseData {
            accounts: vec![account("a1", 3, 1, 2), account("a2", -4, -4, 0)],
            server_knowledge: 1,
        },
    };
    assert!(good.is_well_formed());
    for listed in &good.data.accounts {
        assert_eq!(listed.balance, listed.cleared_balance + listed.uncleared_balance);
    }
    let bad = AccountsResponse {
        data: AccountsResponseData {
            accounts: vec![account("a1", 3, 1, 2), account("a2", -4, -4, 1)],
            server_knowledge: 1,
        },
    };
    assert!(!bad.is_well_formed());
}

#[test]
fn summary_without_accounts_is_no_error() {
    let listing = BudgetSummaryResponse {
        data: BudgetSummaryResponseData { budgets: vec![summary(None)], default_budget: None },
    };
    let reply = Reply {
        status: 200,
        body: "{\"data\":{\"budgets\":[{\"id\":\"B1\",\"name\":\"Household\"}]}}".as_bytes().to_vec(),
    };
    let result = interpret(Operation::GetBudgets, &reply, Decoded::Payload(listing)).unwrap();
    assert_eq!(result.data.budgets.len(), 1);
    assert_eq!(result.data.budgets[0].accounts, None);
    assert_eq!(result.data.budgets[0].account_count(), 0);
    assert!(result.data.budgets[0].is_well_formed());
    assert_eq!(result.data.default_budget, None);
}

#[test]
fn summary_with_accounts_counts_them() {
    let with = summary(Some(vec![account("a1", 3, 1, 2), account("a2", 0, 0, 0)]));
    assert_eq!(with.account_count(), 2);
    assert!(with.is_well_formed());
    let empty = summary(Some(vec![]));
    assert_eq!(empty.account_count(), 0);
    assert!(empty.is_well_formed());
    let off = summary(Some(vec![account("a1", 3, 1, 1)]));
    assert!(!off.is_well_formed());
}

#[test]
fn keys_are_looked_up_among_records() {
    let payees = vec![payee("py1", None), payee("py2", None)];
    assert!(holds_key(&payees, "py1"));
    assert!(holds_key(&payees, "py2"));
    assert!(!holds_key(&payees, "py3"));
    assert!(!holds_key(&payees, ""));
    assert!(!holds_key(&Vec::<Payee>::new(), "py1"));
}

#[test]
fn null_references_resolve() {
    let payees = vec![payee("py1", None)];
    assert!(resolves_in(&payees, &None));
    assert!(resolves_in(&Vec::<Payee>::new(), &None));
    assert!(resolves_in(&payees, &text("py1")));
    assert!(!resolves_in(&payees, &text("py9")));
}

#[test]
fn consistent_budget_is_well_formed() {
    assert!(budget().is_consistent());
    assert!(budget().is_well_formed());
}

#[test]
fn empty_budget_is_well_formed() {
    let mut empty = budget();
    empty.accounts.clear();
    empty.payees.clear();
    empty.payee_locations.clear();
    empty.categories.clear();
    empty.transactions.clear();
    empty.subtransactions.clear();
    empty.scheduled_transactions.clear();
    empty.scheduled_subtransactions.clear();
    assert!(empty.is_well_formed());
}

#[test]
fn unknown_account_breaks_consistency() {
    let mut broken = budget();
    broken.transactions.push(transaction("t3", "a9", None, None));
    assert!(!broken.is_consistent());
    let mut broken = budget();
    broken.scheduled_transactions.push(scheduled("st2", "a9"));
    assert!(!broken.is_consistent());
    let mut broken = budget();
    broken.payees.push(payee("py3", Some("a9")));
    assert!(!broken.is_consistent());
    let mut broken = budget();
    broken.transactions[0].transfer_account_id = text("a9");
    assert!(!broken.is_consistent());
}

#[test]
fn unknown_payee_or_category_breaks_consistency() {
    let mut broken = budget();
    broken.transactions[1].payee_id = text("py9");
    assert!(!broken.is_consistent());
    let mut broken = budget();
    broken.transactions[1].category_id = text("c9");
    assert!(!broken.is_consistent());
    let mut broken = budget();
    broken.payee_locations[0].payee_id = String::from("py9");
    assert!(!broken.is_consistent());
    let mut broken = budget();
    broken.subtransactions[1].category_id = text("c9");
    assert!(!broken.is_consistent());
    let mut broken = budget();
    broken.scheduled_subtransactions[0].payee_id = text("py9");
    assert!(!broken.is_consistent());
}

#[test]
fn missing_parent_breaks_consistency() {
    let mut broken = budget();
    broken.subtransactions.push(part("s3", "t9", None));
    assert!(!broken.is_consistent());
    let mut broken = budget();
    broken.scheduled_subtransactions.push(scheduled_part("sp2", "st9"));
    assert!(!broken.is_consistent());
    let mut broken = budget();
    broken.transactions.remove(0);
    assert!(!broken.is_consistent());
}

#[test]
fn unbalanced_account_breaks_well_formedness_only() {
    let mut off = budget();
    off.accounts[1].balance = 1;
    assert!(off.is_consistent());
    assert!(!off.is_well_formed());
}

fn update(id: Option<&str>) -> SaveTransactionWithId {
    SaveTransactionWithId {
        id: id.map(String::from),
        account_id: None,
        date: None,
        amount: Some(-1500),
        payee_id: None,
        payee_name: None,
        category_id: None,
        memo: None,
        cleared: None,
        approved: Some(true),
        flag_color: None,
        import_id: None,
        subtransactions: None,
    }
}

#[test]
fn category_without_goal_carries_no_goal_fields() {
    let plain = category("c1");
    assert!(!plain.has_goal());
    assert!(plain.goal_fields_agree());
    let mut stray = category("c1");
    stray.goal_target = Some(50000);
    assert!(!stray.has_goal());
    assert!(!stray.goal_fields_agree());
    let mut stray = category("c1");
    stray.goal_overall_left = Some(0);
    assert!(!stray.goal_fields_agree());
    let mut stray = category("c1");
    stray.goal_creation_month = text("2024-01-01");
    assert!(!stray.goal_fields_agree());
}

#[test]
fn category_with_goal_may_carry_goal_fields() {
    let mut saving = category("c1");
    saving.goal_type = Some(GoalType::TB);
    assert!(saving.has_goal());
    assert!(saving.goal_fields_agree());
    saving.goal_target = Some(50000);
    saving.goal_percentage_complete = Some(40);
    saving.goal_target_month = text("2024-12-01");
    assert!(saving.goal_fields_agree());
}

#[test]
fn patch_needs_an_id_for_every_entry() {
    let none = PatchTransactionsWrapper { transactions: vec![] };
    assert!(none.is_identified());
    let all = PatchTransactionsWrapper { transactions: vec![update(Some("t1")), update(Some("t2"))] };
    assert!(all.is_identified());
    let some = PatchTransactionsWrapper { transactions: vec![update(Some("t1")), update(None)] };
    assert!(!some.is_identified());
}
