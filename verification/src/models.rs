//! The entities of a budget and the payloads that carry them.
//!
//! Every amount of money is an integer number of milliunits, a thousandth of
//! the budget's currency unit. Records are never removed from a listing: a
//! record that no longer exists is sent with `deleted` set.

use std::collections::HashMap;
use vstd::prelude::*;

verus! {

/// The failure payload every operation shares: one `error` record.
#[derive(Debug, Clone, PartialEq, Eq)]
pub struct ErrorResponse {
    pub error: ErrorDetail,
}

/// What the service says about a rejected request.
#[derive(Debug, Clone, PartialEq, Eq)]
pub struct ErrorDetail {
    pub id: String,
    pub name: String,
    pub detail: String,
}

/// Payload of the user operation.
#[derive(Debug, Clone, PartialEq, Eq)]
pub struct UserData {
    pub user: User,
}

/// Success payload of the user operation, under its `data` key.
#[derive(Debug, Clone, PartialEq, Eq)]
pub struct UserResponse {
    pub data: UserData,
}

/// The authenticated user.
#[derive(Debug, Clone, PartialEq, Eq)]
pub struct User {
    pub id: String,
}

/// How a budget writes dates.
#[derive(Debug, Clone, PartialEq, Eq)]
pub struct DateFormat {
    pub format: String,
}

/// How a budget writes amounts of money.
#[derive(Debug, Clone, PartialEq, Eq)]
pub struct CurrencyFormat {
    pub iso_code: String,
    pub example_format: String,
    pub decimal_digits: i32,
    pub decimal_separator: String,
    pub symbol_first: bool,
    pub group_separator: String,
    pub currency_symbol: String,
    pub display_symbol: bool,
}

/// The budgets of a user, and the default budget where one is set.
#[derive(Debug, Clone, PartialEq, Eq)]
pub struct BudgetSummaryResponseData {
    pub budgets: Vec<BudgetSummary>,
    pub default_budget: Option<BudgetSummary>,
}

/// Success payload of the budget listing.
#[derive(Debug, Clone, PartialEq, Eq)]
pub struct BudgetSummaryResponse {
    pub data: BudgetSummaryResponseData,
}

/// A budget without its collections; `accounts` is present only when the
/// listing was asked to include them.
#[derive(Debug, Clone, PartialEq, Eq)]
pub struct BudgetSummary {
    pub id: String,
    pub name: String,
    pub last_modified_on: Option<String>,
    pub first_month: Option<String>,
    pub last_month: Option<String>,
    pub date_format: Option<DateFormat>,
    pub currency_format: Option<CurrencyFormat>,
    pub accounts: Option<Vec<Account>>,
}

/// A whole budget and the server knowledge it was exported at.
#[derive(Debug, Clone, PartialEq, Eq)]
pub struct BudgetDetailResponseData {
    pub budget: BudgetDetail,
    pub server_knowledge: i64,
}

/// Success payload of the single-budget export.
#[derive(Debug, Clone, PartialEq, Eq)]
pub struct BudgetDetailResponse {
    pub data: BudgetDetailResponseData,
}

/// A budget with all the collections it owns.
#[derive(Debug, Clone, PartialEq, Eq)]
pub struct BudgetDetail {
    pub id: String,
    pub name: String,
    pub last_modified_on: String,
    pub first_month: String,
    pub last_month: String,
    pub date_format: DateFormat,
    pub currency_format: CurrencyFormat,
    pub accounts: Vec<Account>,
    pub payees: Vec<Payee>,
    pub payee_locations: Vec<PayeeLocation>,
    pub category_groups: Vec<CategoryGroup>,
    pub categories: Vec<Category>,
    pub months: Vec<MonthDetail>,
    pub transactions: Vec<TransactionSummary>,
    pub subtransactions: Vec<SubTransaction>,
    pub scheduled_transactions: Vec<ScheduledTransactionSummary>,
    pub scheduled_subtransactions: Vec<ScheduledSubTransaction>,
}

/// Payload of the budget settings operation.
#[derive(Debug, Clone, PartialEq, Eq)]
pub struct BudgetSettingsResponseData {
    pub settings: BudgetSettings,
}

/// Success payload of the budget settings operation.
#[derive(Debug, Clone, PartialEq, Eq)]
pub struct BudgetSettingsResponse {
    pub data: BudgetSettingsResponseData,
}

/// Formatting rules of a budget.
#[derive(Debug, Clone, PartialEq, Eq)]
pub struct BudgetSettings {
    pub date_format: DateFormat,
    pub currency_format: CurrencyFormat,
}

/// Accounts of a budget and the server knowledge of the listing.
#[derive(Debug, Clone, PartialEq, Eq)]
pub struct AccountsResponseData {
    pub accounts: Vec<Account>,
    pub server_knowledge: i64,
}

/// Success payload of the account listing.
#[derive(Debug, Clone, PartialEq, Eq)]
pub struct AccountsResponse {
    pub data: AccountsResponseData,
}

/// Payload of the single-account operation.
#[derive(Debug, Clone, PartialEq, Eq)]
pub struct AccountResponseData {
    pub account: Account,
}

/// Success payload of the single-account operation.
#[derive(Debug, Clone, PartialEq, Eq)]
pub struct AccountResponse {
    pub data: AccountResponseData,
}

/// The kinds of account the service knows.
#[derive(Debug, Clone, Copy, PartialEq, Eq, Structural)]
pub enum AccountType {
    Checking,
    Savings,
    Cash,
    CreditCard,
    LineOfCredit,
    OtherAsset,
    OtherLiability,
    Mortgage,
    AutoLoan,
    StudentLoan,
    PersonalLoan,
    MedicalDebt,
    OtherDebt,
}

/// An account of a budget. Amounts are in milliunits.
#[derive(Debug, Clone, PartialEq, Eq)]
pub struct Account {
    pub id: String,
    pub name: String,
    pub account_type: AccountType,
    pub on_budget: bool,
    pub closed: bool,
    pub note: Option<String>,
    pub balance: i64,
    pub cleared_balance: i64,
    pub uncleared_balance: i64,
    pub transfer_payee_id: String,
    pub direct_import_linked: Option<bool>,
    pub direct_import_in_error: Option<bool>,
    pub last_reconciled_at: Option<String>,
    pub debt_original_balance: Option<i64>,
    pub debt_interest_rates: Option<LoanAccountPeriodicValue>,
    pub debt_minimum_payments: Option<LoanAccountPeriodicValue>,
    pub debt_escrow_amounts: Option<LoanAccountPeriodicValue>,
    pub deleted: bool,
}

/// Request body that creates an account.
#[derive(Debug, Clone, PartialEq, Eq)]
pub struct PostAccountWrapper {
    pub account: SaveAccount,
}

/// The fields a caller supplies for a new account.
#[derive(Debug, Clone, PartialEq, Eq)]
pub struct SaveAccount {
    pub name: String,
    pub account_type: AccountType,
    pub balance: i64,
}

/// A value of a loan account that changes over time, keyed by date.
#[derive(Debug, Clone, PartialEq, Eq)]
pub struct LoanAccountPeriodicValue {
    pub map: HashMap<String, i64>,
}

/// Category groups with their categories, and the server knowledge of the
/// listing.
#[derive(Debug, Clone, PartialEq, Eq)]
pub struct CategoriesResponseData {
    pub category_groups: Vec<CategoryGroupWithCategories>,
    pub server_knowledge: i64,
}

/// Success payload of the category listing.
#[derive(Debug, Clone, PartialEq, Eq)]
pub struct CategoriesResponse {
    pub data: CategoriesResponseData,
}

/// Payload of the single-category operations.
#[derive(Debug, Clone, PartialEq, Eq)]
pub struct CategoryResponseData {
    pub category: Category,
}

/// Success payload of the single-category operations.
#[derive(Debug, Clone, PartialEq, Eq)]
pub struct CategoryResponse {
    pub data: CategoryResponseData,
}

/// A category group together with the categories it owns.
#[derive(Debug, Clone, PartialEq, Eq)]
pub struct CategoryGroupWithCategories {
    pub id: String,
    pub name: String,
    pub hidden: bool,
    pub deleted: bool,
    pub categories: Vec<Category>,
}

/// A category group on its own.
#[derive(Debug, Clone, PartialEq, Eq)]
pub struct CategoryGroup {
    pub id: String,
    pub name: String,
    pub hidden: bool,
    pub deleted: bool,
}

/// The kinds of goal a category can have.
#[derive(Debug, Clone, Copy, PartialEq, Eq, Structural)]
pub enum GoalType {
    TB,
    TBD,
    MF,
    NEED,
    DEBT,
}

/// A category. The goal fields are present only when a goal exists.
#[derive(Debug, Clone, PartialEq, Eq)]
pub struct Category {
    pub id: String,
    pub category_group_id: String,
    pub category_group_name: Option<String>,
    pub name: String,
    pub hidden: bool,
    pub original_category_group_id: Option<String>,
    pub note: Option<String>,
    pub budgeted: i64,
    pub activity: i64,
    pub balance: i64,
    pub goal_type: Option<GoalType>,
    pub goal_day: Option<i32>,
    pub goal_cadence: Option<i32>,
    pub goal_cadence_frequency: Option<i32>,
    pub goal_creation_month: Option<String>,
    pub goal_target: Option<i64>,
    pub goal_target_month: Option<String>,
    pub goal_percentage_complete: Option<i32>,
    pub goal_months_to_budget: Option<i32>,
    pub goal_under_funded: Option<i64>,
    pub goal_overall_funded: Option<i64>,
    pub goal_overall_left: Option<i64>,
    pub deleted: bool,
}

/// A saved category and the server knowledge after the save.
#[derive(Debug, Clone, PartialEq, Eq)]
pub struct SaveCategoryResponseData {
    pub category: Category,
    pub server_knowledge: i64,
}

/// Success payload of a category update.
#[derive(Debug, Clone, PartialEq, Eq)]
pub struct SaveCategoryResponse {
    pub data: SaveCategoryResponseData,
}

/// Payees of a budget and the server knowledge of the listing.
#[derive(Debug, Clone, PartialEq, Eq)]
pub struct PayeesResponseData {
    pub payees: Vec<Payee>,
    pub server_knowledge: i64,
}

/// Success payload of the payee listing.
#[derive(Debug, Clone, PartialEq, Eq)]
pub struct PayeesResponse {
    pub data: PayeesResponseData,
}

/// Payload of the single-payee operation.
#[derive(Debug, Clone, PartialEq, Eq)]
pub struct PayeeResponseData {
    pub payee: Payee,
}

/// Success payload of the single-payee operation.
#[derive(Debug, Clone, PartialEq, Eq)]
pub struct PayeeResponse {
    pub data: PayeeResponseData,
}

/// A payee. With a `transfer_account_id` it stands for transfers to or from
/// that account.
#[derive(Debug, Clone, PartialEq, Eq)]
pub struct Payee {
    pub id: String,
    pub name: String,
    pub transfer_account_id: Option<String>,
    pub deleted: bool,
}

/// Payee locations, and the server knowledge of the listing. The listing of
/// a budget has to carry one; the listing of one payee carries none.
#[derive(Debug, Clone, PartialEq, Eq)]
pub struct PayeeLocationsResponseData {
    pub payee_locations: Vec<PayeeLocation>,
    pub server_knowledge: Option<i64>,
}

/// Success payload of the payee location listings.
#[derive(Debug, Clone, PartialEq, Eq)]
pub struct PayeeLocationsResponse {
    pub data: PayeeLocationsResponseData,
}

/// Payload of the single-location operation.
#[derive(Debug, Clone, PartialEq, Eq)]
pub struct PayeeLocationResponseData {
    pub payee_location: PayeeLocation,
}

/// Success payload of the single-location operation.
#[derive(Debug, Clone, PartialEq, Eq)]
pub struct PayeeLocationResponse {
    pub data: PayeeLocationResponseData,
}

/// Where a payee was seen. Coordinates are kept as the service sent them.
#[derive(Debug, Clone, PartialEq, Eq)]
pub struct PayeeLocation {
    pub id: String,
    pub payee_id: String,
    pub latitude: String,
    pub longitude: String,
    pub deleted: bool,
}

/// Transactions in detail and the server knowledge of the listing.
#[derive(Debug, Clone, PartialEq, Eq)]
pub struct TransactionsResponseData {
    pub transactions: Vec<TransactionDetail>,
    pub server_knowledge: i64,
}

/// Success payload of the transaction listings by budget, account and
/// category.
#[derive(Debug, Clone, PartialEq, Eq)]
pub struct TransactionsResponse {
    pub data: TransactionsResponseData,
}

/// Hybrid entries of a payee-scoped listing and the server knowledge of the
/// listing.
#[derive(Debug, Clone, PartialEq, Eq)]
pub struct HybridTransactionsResponseData {
    pub transactions: Vec<HybridTransaction>,
    pub server_knowledge: i64,
}

/// Success payload of the payee-scoped transaction listing.
#[derive(Debug, Clone, PartialEq, Eq)]
pub struct HybridTransactionsResponse {
    pub data: HybridTransactionsResponseData,
}

/// Request body that replaces one transaction.
#[derive(Debug, Clone, PartialEq, Eq)]
pub struct PutTransactionWrapper {
    pub transaction: SaveTransaction,
}

/// Request body that creates one transaction or several.
#[derive(Debug, Clone, PartialEq, Eq)]
pub struct PostTransactionsWrapper {
    pub transaction: Option<SaveTransaction>,
    pub transactions: Option<Vec<SaveTransaction>>,
}

/// How far a transaction has cleared.
#[derive(Debug, Clone, Copy, PartialEq, Eq, Structural)]
pub enum ClearedStatus {
    Cleared,
    Uncleared,
    Reconciled,
}

/// The flag colours a transaction can carry.
#[derive(Debug, Clone, Copy, PartialEq, Eq, Structural)]
pub enum FlagColor {
    Red,
    Orange,
    Yellow,
    Green,
    Blue,
    Purple,
}

/// The fields a caller supplies for a new transaction.
#[derive(Debug, Clone, PartialEq, Eq)]
pub struct SaveTransaction {
    pub account_id: String,
    pub date: String,
    pub amount: i64,
    pub payee_id: Option<String>,
    pub payee_name: Option<String>,
    pub category_id: Option<String>,
    pub memo: Option<String>,
    pub cleared: Option<ClearedStatus>,
    pub approved: Option<bool>,
    pub flag_color: Option<FlagColor>,
    pub import_id: Option<String>,
    pub subtransactions: Option<Vec<SaveSubTransaction>>,
}

/// Request body that updates several transactions.
#[derive(Debug, Clone, PartialEq, Eq)]
pub struct PatchTransactionsWrapper {
    pub transactions: Vec<SaveTransactionWithId>,
}

/// An update of one transaction: its `id`, and the fields to override.
#[derive(Debug, Clone, PartialEq, Eq)]
pub struct SaveTransactionWithId {
    pub id: Option<String>,
    pub account_id: Option<String>,
    pub date: Option<String>,
    pub amount: Option<i64>,
    pub payee_id: Option<String>,
    pub payee_name: Option<String>,
    pub category_id: Option<String>,
    pub memo: Option<String>,
    pub cleared: Option<ClearedStatus>,
    pub approved: Option<bool>,
    pub flag_color: Option<FlagColor>,
    pub import_id: Option<String>,
    pub subtransactions: Option<Vec<SaveSubTransaction>>,
}

/// A transaction update in which every field is optional.
#[derive(Debug, Clone, PartialEq, Eq)]
pub struct SaveTransactionWithOptionalFields {
    pub account_id: Option<String>,
    pub date: Option<String>,
    pub amount: Option<i64>,
    pub payee_id: Option<String>,
    pub payee_name: Option<String>,
    pub category_id: Option<String>,
    pub memo: Option<String>,
    pub cleared: Option<ClearedStatus>,
    pub approved: Option<bool>,
    pub flag_color: Option<FlagColor>,
    pub import_id: Option<String>,
    pub subtransactions: Option<Vec<SaveSubTransaction>>,
}

/// One split of a transaction being saved.
#[derive(Debug, Clone, PartialEq, Eq)]
pub struct SaveSubTransaction {
    pub amount: i64,
    pub payee_id: Option<String>,
    pub payee_name: Option<String>,
    pub category_id: Option<String>,
    pub memo: Option<String>,
}

/// What a save of transactions produced.
#[derive(Debug, Clone, PartialEq, Eq)]
pub struct SaveTransactionsResponseData {
    pub transaction_ids: Vec<String>,
    pub transaction: Option<TransactionDetail>,
    pub transactions: Option<Vec<TransactionDetail>>,
    pub duplicate_import_ids: Option<Vec<String>>,
    pub server_knowledge: i64,
}

/// Success payload of a save of transactions.
#[derive(Debug, Clone, PartialEq, Eq)]
pub struct SaveTransactionsResponse {
    pub data: SaveTransactionsResponseData,
}

/// Payload of the single-transaction operation.
#[derive(Debug, Clone, PartialEq, Eq)]
pub struct TransactionResponseData {
    pub transaction: TransactionDetail,
}

/// Success payload of the single-transaction operation.
#[derive(Debug, Clone, PartialEq, Eq)]
pub struct TransactionResponse {
    pub data: TransactionResponseData,
}

/// The kinds of transaction on a debt account.
#[derive(Debug, Clone, Copy, PartialEq, Eq, Structural)]
pub enum DebtTransactionType {
    Payment,
    Refund,
    Fee,
    Interest,
    Escrow,
    BalancedAdjustment,
    Credit,
    Charge,
}

/// A transaction as a budget export lists it: flat, with the id of the
/// transaction on the other side of a transfer.
#[derive(Debug, Clone, PartialEq, Eq)]
pub struct TransactionSummary {
    pub id: String,
    pub date: String,
    pub amount: i64,
    pub memo: Option<String>,
    pub cleared: ClearedStatus,
    pub approved: bool,
    pub flag_color: Option<FlagColor>,
    pub account_id: String,
    pub payee_id: Option<String>,
    pub category_id: Option<String>,
    pub transfer_account_id: Option<String>,
    pub transfer_transaction_id: Option<String>,
    pub matched_transaction_id: Option<String>,
    pub import_id: Option<String>,
    pub import_payee_name: Option<String>,
    pub import_payee_name_original: Option<String>,
    pub debt_transaction_type: Option<DebtTransactionType>,
    pub deleted: bool,
}

/// A transaction with resolved names and the sub-transactions it owns.
#[derive(Debug, Clone, PartialEq, Eq)]
pub struct TransactionDetail {
    pub id: String,
    pub date: String,
    pub amount: i64,
    pub memo: Option<String>,
    pub cleared: ClearedStatus,
    pub approved: bool,
    pub flag_color: Option<FlagColor>,
    pub account_id: String,
    pub payee_id: Option<String>,
    pub category_id: Option<String>,
    pub transfer_account_id: Option<String>,
    pub matched_transaction_id: Option<String>,
    pub import_id: Option<String>,
    pub import_payee_name: Option<String>,
    pub import_payee_name_original: Option<String>,
    pub debt_transaction_type: Option<DebtTransactionType>,
    pub deleted: bool,
    pub account_name: String,
    pub payee_name: Option<String>,
    pub category_name: Option<String>,
    pub subtransactions: Vec<SubTransaction>,
}

/// Whether a hybrid entry is a transaction or a sub-transaction.
#[derive(Debug, Clone, Copy, PartialEq, Eq, Structural)]
pub enum TransactionType {
    Transaction,
    SubTransaction,
}

/// An entry of a payee-scoped listing: a transaction, or a sub-transaction
/// listed beside transactions.
#[derive(Debug, Clone, PartialEq, Eq)]
pub struct HybridTransaction {
    pub id: String,
    pub date: String,
    pub amount: i64,
    pub memo: Option<String>,
    pub cleared: ClearedStatus,
    pub approved: bool,
    pub flag_color: Option<FlagColor>,
    pub account_id: String,
    pub payee_id: Option<String>,
    pub category_id: Option<String>,
    pub transfer_account_id: Option<String>,
    pub matched_transaction_id: Option<String>,
    pub import_id: Option<String>,
    pub import_payee_name: Option<String>,
    pub import_payee_name_original: Option<String>,
    pub debt_transaction_type: Option<DebtTransactionType>,
    pub deleted: bool,
    pub transaction_type: TransactionType,
    pub parent_transaction_id: Option<String>,
    pub account_name: String,
    pub payee_name: Option<String>,
    pub category_name: Option<String>,
}

/// Request body that changes what a category is budgeted in a month.
#[derive(Debug, Clone, PartialEq, Eq)]
pub struct PatchMonthCategoryWrapper {
    pub category: SaveMonthCategory,
}

/// The amount budgeted for a category in a month.
#[derive(Debug, Clone, PartialEq, Eq)]
pub struct SaveMonthCategory {
    pub budgeted: i64,
}

/// Ids of the transactions an import created.
#[derive(Debug, Clone, PartialEq, Eq)]
pub struct TransactionsImportResponseData {
    pub transaction_ids: Vec<String>,
}

/// Success payload of a transaction import.
#[derive(Debug, Clone, PartialEq, Eq)]
pub struct TransactionsImportResponse {
    pub data: TransactionsImportResponseData,
}

/// Ids created by a bulk save, and import ids that were already known.
#[derive(Debug, Clone, PartialEq, Eq)]
pub struct BulkResponseDataBulk {
    pub transaction_ids: Vec<String>,
    pub duplicate_import_ids: Vec<String>,
}

/// Payload of a bulk save.
#[derive(Debug, Clone, PartialEq, Eq)]
pub struct BulkResponseData {
    pub bulk: BulkResponseDataBulk,
}

/// Success payload of a bulk save.
#[derive(Debug, Clone, PartialEq, Eq)]
pub struct BulkResponse {
    pub data: BulkResponseData,
}

/// Request body of a bulk save.
#[derive(Debug, Clone, PartialEq, Eq)]
pub struct BulkTransactions {
    pub transactions: Vec<SaveTransaction>,
}

/// One split of a transaction, owned by the transaction `transaction_id`.
#[derive(Debug, Clone, PartialEq, Eq)]
pub struct SubTransaction {
    pub id: String,
    pub transaction_id: String,
    pub amount: i64,
    pub memo: Option<String>,
    pub payee_id: Option<String>,
    pub payee_name: Option<String>,
    pub category_id: Option<String>,
    pub category_name: Option<String>,
    pub transfer_account_id: Option<String>,
    pub transfer_transaction_id: Option<String>,
    pub deleted: bool,
}

/// Scheduled transactions in detail and the server knowledge of the
/// listing.
#[derive(Debug, Clone, PartialEq, Eq)]
pub struct ScheduledTransactionsResponseData {
    pub scheduled_transactions: Vec<ScheduledTransactionDetail>,
    pub server_knowledge: i64,
}

/// Success payload of the scheduled transaction listing.
#[derive(Debug, Clone, PartialEq, Eq)]
pub struct ScheduledTransactionsResponse {
    pub data: ScheduledTransactionsResponseData,
}

/// Payload of the single scheduled transaction operation.
#[derive(Debug, Clone, PartialEq, Eq)]
pub struct ScheduledTransactionResponseData {
    pub scheduled_transaction: ScheduledTransactionDetail,
}

/// Success payload of the single scheduled transaction operation.
#[derive(Debug, Clone, PartialEq, Eq)]
pub struct ScheduledTransactionResponse {
    pub data: ScheduledTransactionResponseData,
}

/// How often a scheduled transaction recurs.
#[derive(Debug, Clone, Copy, PartialEq, Eq, Structural)]
pub enum ScheduleFrequency {
    Never,
    Daily,
    Weekly,
    EveryOtherWeek,
    TwiceAMonth,
    Every4Weeks,
    Monthly,
    EveryOtherMonth,
    Every3Months,
    Every4Months,
    TwiceAYear,
    Yearly,
    EveryOtherYear,
}

/// A scheduled transaction as a budget export lists it.
#[derive(Debug, Clone, PartialEq, Eq)]
pub struct ScheduledTransactionSummary {
    pub id: String,
    pub date_first: String,
    pub date_next: String,
    pub frequency: ScheduleFrequency,
    pub amount: i64,
    pub memo: Option<String>,
    pub flag_color: Option<FlagColor>,
    pub account_id: String,
    pub payee_id: Option<String>,
    pub category_id: Option<String>,
    pub transfer_account_id: Option<String>,
    pub deleted: bool,
}

/// A scheduled transaction with resolved names and its splits.
#[derive(Debug, Clone, PartialEq, Eq)]
pub struct ScheduledTransactionDetail {
    pub id: String,
    pub date_first: String,
    pub date_next: String,
    pub frequency: ScheduleFrequency,
    pub amount: i64,
    pub memo: Option<String>,
    pub flag_color: Option<FlagColor>,
    pub account_id: String,
    pub payee_id: Option<String>,
    pub category_id: Option<String>,
    pub transfer_account_id: Option<String>,
    pub deleted: bool,
    pub account_name: String,
    pub payee_name: Option<String>,
    pub category_name: Option<String>,
    pub subtransactions: Vec<ScheduledSubTransaction>,
}

/// One split of a scheduled transaction.
#[derive(Debug, Clone, PartialEq, Eq)]
pub struct ScheduledSubTransaction {
    pub id: String,
    pub scheduled_transaction_id: String,
    pub amount: i64,
    pub memo: Option<String>,
    pub payee_id: Option<String>,
    pub category_id: Option<String>,
    pub transfer_account_id: Option<String>,
    pub deleted: bool,
}

/// Months of a budget and the server knowledge of the listing.
#[derive(Debug, Clone, PartialEq, Eq)]
pub struct MonthSummariesResponseData {
    pub months: Vec<MonthSummary>,
    pub server_knowledge: i64,
}

/// Success payload of the month listing.
#[derive(Debug, Clone, PartialEq, Eq)]
pub struct MonthSummariesResponse {
    pub data: MonthSummariesResponseData,
}

/// Payload of the single-month operation.
#[derive(Debug, Clone, PartialEq, Eq)]
pub struct MonthDetailResponseData {
    pub month: MonthDetail,
}

/// Success payload of the single-month operation.
#[derive(Debug, Clone, PartialEq, Eq)]
pub struct MonthDetailResponse {
    pub data: MonthDetailResponseData,
}

/// The totals of one budget month, keyed by its first day.
#[derive(Debug, Clone, PartialEq, Eq)]
pub struct MonthSummary {
    pub month: String,
    pub note: Option<String>,
    pub income: i64,
    pub budgeted: i64,
    pub activity: i64,
    pub to_be_budgeted: i64,
    pub age_of_money: Option<i32>,
    pub deleted: bool,
}

/// A budget month with the category balances as of that month.
#[derive(Debug, Clone, PartialEq, Eq)]
pub struct MonthDetail {
    pub month: String,
    pub note: Option<String>,
    pub income: i64,
    pub budgeted: i64,
    pub activity: i64,
    pub to_be_budgeted: i64,
    pub age_of_money: Option<i32>,
    pub deleted: bool,
    pub categories: Vec<Category>,
}

} // verus!
