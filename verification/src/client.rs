//! Request construction: which endpoint an operation addresses, with which
//! query, under which credentials.
//!
//! A listing takes the cursor of the delta protocol as the query parameter
//! `last_knowledge_of_server`. Transaction listings also take the filters
//! `since_date` and `type`. The parameters that are present appear in that
//! order, each written `key=value`, joined by `&`; values are taken as they
//! are given.

use crate::envelope::Operation;
use crate::text::{decimal, join, joined, push_decimal, views};
use vstd::prelude::*;

verus! {

/// The address under which every endpoint of the service lives.
pub open spec fn api_base() -> Seq<char> {
    "https://api.ynab.com/v1"@
}

/// The value of the `Authorization` header for an access token.
pub open spec fn bearer(token: Seq<char>) -> Seq<char> {
    "Bearer "@ + token
}

/// The text of an optional string.
pub open spec fn text_of(value: Option<&str>) -> Option<Seq<char>> {
    match value {
        Some(text) => Some(text@),
        None => None,
    }
}

/// The query parameter that carries the cursor.
pub open spec fn cursor_parameter(cursor: i64) -> Seq<char> {
    "last_knowledge_of_server="@ + decimal(cursor as int)
}

/// The query parameters of a listing: those that are present, in the order
/// `since_date`, `type`, `last_knowledge_of_server`.
pub open spec fn filters(
    since_date: Option<Seq<char>>,
    transaction_type: Option<Seq<char>>,
    last_knowledge_of_server: Option<i64>,
) -> Seq<Seq<char>> {
    (match since_date {
        Some(date) => seq!["since_date="@ + date],
        None => Seq::empty(),
    }) + (match transaction_type {
        Some(kind) => seq!["type="@ + kind],
        None => Seq::empty(),
    }) + (match last_knowledge_of_server {
        Some(cursor) => seq![cursor_parameter(cursor)],
        None => Seq::empty(),
    })
}

/// A path with its query: the path alone where there is no parameter, else
/// the path, a question mark and the parameters joined by `&`.
pub open spec fn with_query(path: Seq<char>, parameters: Seq<Seq<char>>) -> Seq<char> {
    if parameters.len() == 0 {
        path
    } else {
        path + "?"@ + joined(parameters, "&"@)
    }
}

/// The endpoint of the authenticated user.
pub open spec fn user_endpoint() -> Seq<char> {
    "/user"@
}

/// The endpoint of the budget listing.
pub open spec fn budgets_endpoint(include_accounts: bool) -> Seq<char> {
    if include_accounts {
        "/budgets?include_accounts=true"@
    } else {
        "/budgets"@
    }
}

/// The endpoint of a budget export.
pub open spec fn budget_endpoint(
    budget_id: Seq<char>,
    last_knowledge_of_server: Option<i64>,
) -> Seq<char> {
    with_query(
        "/budgets/"@ + budget_id,
        filters(None, None, last_knowledge_of_server),
    )
}

/// The endpoint of the settings of a budget.
pub open spec fn budget_settings_endpoint(budget_id: Seq<char>) -> Seq<char> {
    "/budgets/"@ + budget_id + "/settings"@
}

/// The endpoint of the account listing.
pub open spec fn account_list_endpoint(
    budget_id: Seq<char>,
    last_knowledge_of_server: Option<i64>,
) -> Seq<char> {
    with_query(
        "/budgets/"@ + budget_id + "/accounts"@,
        filters(None, None, last_knowledge_of_server),
    )
}

/// The endpoint of one account.
pub open spec fn account_endpoint(budget_id: Seq<char>, account_id: Seq<char>) -> Seq<char> {
    "/budgets/"@ + budget_id + "/accounts/"@ + account_id
}

/// The endpoint of the category listing.
pub open spec fn category_list_endpoint(
    budget_id: Seq<char>,
    last_knowledge_of_server: Option<i64>,
) -> Seq<char> {
    with_query(
        "/budgets/"@ + budget_id + "/categories"@,
        filters(None, None, last_knowledge_of_server),
    )
}

/// The endpoint of one category.
pub open spec fn category_endpoint(budget_id: Seq<char>, category_id: Seq<char>) -> Seq<char> {
    "/budgets/"@ + budget_id + "/categories/"@ + category_id
}

/// The endpoint of one category as of a month.
pub open spec fn category_for_month_endpoint(
    budget_id: Seq<char>,
    date: Seq<char>,
    category_id: Seq<char>,
) -> Seq<char> {
    "/budgets/"@ + budget_id + "/months/"@ + date + "/categories/"@ + category_id
}

/// The endpoint of the payee listing.
pub open spec fn payee_list_endpoint(
    budget_id: Seq<char>,
    last_knowledge_of_server: Option<i64>,
) -> Seq<char> {
    with_query(
        "/budgets/"@ + budget_id + "/payees"@,
        filters(None, None, last_knowledge_of_server),
    )
}

/// The endpoint of one payee.
pub open spec fn payee_endpoint(budget_id: Seq<char>, payee_id: Seq<char>) -> Seq<char> {
    "/budgets/"@ + budget_id + "/payees/"@ + payee_id
}

/// The endpoint of the payee location listing.
pub open spec fn payee_location_list_endpoint(
    budget_id: Seq<char>,
    last_knowledge_of_server: Option<i64>,
) -> Seq<char> {
    with_query(
        "/budgets/"@ + budget_id + "/payee_locations"@,
        filters(None, None, last_knowledge_of_server),
    )
}

/// The endpoint of one payee location.
pub open spec fn payee_location_endpoint(
    budget_id: Seq<char>,
    payee_location_id: Seq<char>,
) -> Seq<char> {
    "/budgets/"@ + budget_id + "/payee_locations/"@ + payee_location_id
}

/// The endpoint of the locations of one payee.
pub open spec fn payee_locations_for_payee_endpoint(
    budget_id: Seq<char>,
    payee_id: Seq<char>,
) -> Seq<char> {
    "/budgets/"@ + budget_id + "/payees/"@ + payee_id + "/payee_locations"@
}

/// The endpoint of the month listing.
pub open spec fn month_list_endpoint(
    budget_id: Seq<char>,
    last_knowledge_of_server: Option<i64>,
) -> Seq<char> {
    with_query(
        "/budgets/"@ + budget_id + "/months"@,
        filters(None, None, last_knowledge_of_server),
    )
}

/// The endpoint of one month.
pub open spec fn month_endpoint(budget_id: Seq<char>, date: Seq<char>) -> Seq<char> {
    "/budgets/"@ + budget_id + "/months/"@ + date
}

/// The endpoint of the transaction listing of a budget.
pub open spec fn transaction_list_endpoint(
    budget_id: Seq<char>,
    since_date: Option<Seq<char>>,
    transaction_type: Option<Seq<char>>,
    last_knowledge_of_server: Option<i64>,
) -> Seq<char> {
    with_query("/budgets/"@ + budget_id + "/transactions"@, filters(since_date, transaction_type, last_knowledge_of_server))
}

/// The endpoint of one transaction.
pub open spec fn transaction_endpoint(
    budget_id: Seq<char>,
    transaction_id: Seq<char>,
) -> Seq<char> {
    "/budgets/"@ + budget_id + "/transactions/"@ + transaction_id
}

/// The endpoint of the transaction listing of an account.
pub open spec fn transaction_list_for_account_endpoint(
    budget_id: Seq<char>,
    account_id: Seq<char>,
    since_date: Option<Seq<char>>,
    transaction_type: Option<Seq<char>>,
    last_knowledge_of_server: Option<i64>,
) -> Seq<char> {
    with_query("/budgets/"@ + budget_id + "/accounts/"@ + account_id + "/transactions"@, filters(since_date, transaction_type, last_knowledge_of_server))
}

/// The endpoint of the transaction listing of a category.
pub open spec fn transaction_list_for_category_endpoint(
    budget_id: Seq<char>,
    category_id: Seq<char>,
    since_date: Option<Seq<char>>,
    transaction_type: Option<Seq<char>>,
    last_knowledge_of_server: Option<i64>,
) -> Seq<char> {
    with_query("/budgets/"@ + budget_id + "/categories/"@ + category_id + "/transactions"@, filters(since_date, transaction_type, last_knowledge_of_server))
}

/// The endpoint of the transaction listing of a payee.
pub open spec fn transaction_list_for_payee_endpoint(
    budget_id: Seq<char>,
    payee_id: Seq<char>,
    since_date: Option<Seq<char>>,
    transaction_type: Option<Seq<char>>,
    last_knowledge_of_server: Option<i64>,
) -> Seq<char> {
    with_query("/budgets/"@ + budget_id + "/payees/"@ + payee_id + "/transactions"@, filters(since_date, transaction_type, last_knowledge_of_server))
}

/// The endpoint of the scheduled transaction listing.
pub open spec fn scheduled_transaction_list_endpoint(
    budget_id: Seq<char>,
    last_knowledge_of_server: Option<i64>,
) -> Seq<char> {
    with_query(
        "/budgets/"@ + budget_id + "/scheduled_transactions"@,
        filters(None, None, last_knowledge_of_server),
    )
}

/// The endpoint of one scheduled transaction.
pub open spec fn scheduled_transaction_endpoint(
    budget_id: Seq<char>,
    scheduled_transaction_id: Seq<char>,
) -> Seq<char> {
    "/budgets/"@ + budget_id + "/scheduled_transactions/"@ + scheduled_transaction_id
}

/// A request ready to be sent: a `GET` of `url` with the header
/// `Authorization` set to `authorization`.
#[derive(Debug, Clone, PartialEq, Eq)]
pub struct Request {
    pub operation: Operation,
    pub endpoint: String,
    pub url: String,
    pub authorization: String,
}

/// The endpoint of a listing at `path` with the parameters that are present.
fn listing(
    path: String,
    since_date: Option<&str>,
    transaction_type: Option<&str>,
    last_knowledge_of_server: Option<i64>,
) -> (endpoint: String)
    ensures
        endpoint@ == with_query(
            path@,
            filters(text_of(since_date), text_of(transaction_type), last_knowledge_of_server),
        ),
{
    let mut parameters: Vec<String> = Vec::new();
    if let Some(date) = since_date {
        let mut parameter = String::from_str("since_date=");
        parameter.append(date);
        parameters.push(parameter);
    }
    if let Some(kind) = transaction_type {
        let mut parameter = String::from_str("type=");
        parameter.append(kind);
        parameters.push(parameter);
    }
    if let Some(cursor) = last_knowledge_of_server {
        let mut parameter = String::from_str("last_knowledge_of_server=");
        push_decimal(&mut parameter, cursor);
        parameters.push(parameter);
    }
    assert(views(parameters@) =~= filters(
        text_of(since_date),
        text_of(transaction_type),
        last_knowledge_of_server,
    ));
    if parameters.len() > 0 {
        let query = join(&parameters, "&");
        let mut endpoint = path;
        endpoint.append("?");
        endpoint.append(query.as_str());
        endpoint
    } else {
        path
    }
}

/// Builds the requests of the operations for one access token.
pub struct Client {
    api_token: String,
}

impl Client {
    /// The access token the client presents.
    pub closed spec fn token(&self) -> Seq<char> {
        self.api_token@
    }

    /// Whether `request` is the request of this client for `operation` at
    /// `endpoint`.
    pub open spec fn issues(&self, request: Request, operation: Operation, endpoint: Seq<char>) -> bool {
        &&& request.operation == operation
        &&& request.endpoint@ == endpoint
        &&& request.url@ == api_base() + endpoint
        &&& request.authorization@ == bearer(self.token())
    }

    /// A client that presents `api_token`.
    pub fn new(api_token: String) -> (client: Client)
        ensures
            client.token() == api_token@,
    {
        Client { api_token }
    }

    fn request(&self, operation: Operation, endpoint: String) -> (request: Request)
        ensures
            self.issues(request, operation, endpoint@),
    {
        let mut url = String::from_str("https://api.ynab.com/v1");
        url.append(endpoint.as_str());
        let mut authorization = String::from_str("Bearer ");
        authorization.append(self.api_token.as_str());
        Request { operation, endpoint, url, authorization }
    }

    /// The request for the authenticated user.
    pub fn get_user(&self) -> (request: Request)
        ensures
            self.issues(request, Operation::GetUser, user_endpoint()),
    {
        let endpoint = String::from_str("/user");
        self.request(Operation::GetUser, endpoint)
    }

    /// The request for the budgets of the user, with their accounts where
    /// `include_accounts` is set.
    pub fn get_budgets(&self, include_accounts: bool) -> (request: Request)
        ensures
            self.issues(request, Operation::GetBudgets, budgets_endpoint(include_accounts)),
    {
        let endpoint = if include_accounts {
            String::from_str("/budgets?include_accounts=true")
        } else {
            String::from_str("/budgets")
        };
        self.request(Operation::GetBudgets, endpoint)
    }

    /// The request for a whole budget, or for what changed in it since
    /// `last_knowledge_of_server`.
    pub fn get_budget(
        &self,
        budget_id: &str,
        last_knowledge_of_server: Option<i64>,
    ) -> (request: Request)
        ensures
            self.issues(
                request,
                Operation::GetBudget,
                budget_endpoint(budget_id@, last_knowledge_of_server),
            ),
    {
        let mut path = String::from_str("/budgets/");
        path.append(budget_id);
        let endpoint = listing(path, None, None, last_knowledge_of_server);
        self.request(Operation::GetBudget, endpoint)
    }

    /// The request for the formatting rules of a budget.
    pub fn get_budget_settings(&self, budget_id: &str) -> (request: Request)
        ensures
            self.issues(
                request,
                Operation::GetBudgetSettings,
                budget_settings_endpoint(budget_id@),
            ),
    {
        let mut endpoint = String::from_str("/budgets/");
        endpoint.append(budget_id);
        endpoint.append("/settings");
        self.request(Operation::GetBudgetSettings, endpoint)
    }

    /// The request for the accounts of a budget, or for those that changed
    /// since `last_knowledge_of_server`.
    pub fn get_account_list(
        &self,
        budget_id: &str,
        last_knowledge_of_server: Option<i64>,
    ) -> (request: Request)
        ensures
            self.issues(
                request,
                Operation::GetAccountList,
                account_list_endpoint(budget_id@, last_knowledge_of_server),
            ),
    {
        let mut path = String::from_str("/budgets/");
        path.append(budget_id);
        path.append("/accounts");
        let endpoint = listing(path, None, None, last_knowledge_of_server);
        self.request(Operation::GetAccountList, endpoint)
    }

    /// The request for one account.
    pub fn get_account(&self, budget_id: &str, account_id: &str) -> (request: Request)
        ensures
            self.issues(
                request,
                Operation::GetAccount,
                account_endpoint(budget_id@, account_id@),
            ),
    {
        let mut endpoint = String::from_str("/budgets/");
        endpoint.append(budget_id);
        endpoint.append("/accounts/");
        endpoint.append(account_id);
        self.request(Operation::GetAccount, endpoint)
    }

    /// The request for the categories of a budget by group, or for those that
    /// changed since `last_knowledge_of_server`.
    pub fn get_category_list(
        &self,
        budget_id: &str,
        last_knowledge_of_server: Option<i64>,
    ) -> (request: Request)
        ensures
            self.issues(
                request,
                Operation::GetCategoryList,
                category_list_endpoint(budget_id@, last_knowledge_of_server),
            ),
    {
        let mut path = String::from_str("/budgets/");
        path.append(budget_id);
        path.append("/categories");
        let endpoint = listing(path, None, None, last_knowledge_of_server);
        self.request(Operation::GetCategoryList, endpoint)
    }

    /// The request for one category as of the current month.
    pub fn get_category(&self, budget_id: &str, category_id: &str) -> (request: Request)
        ensures
            self.issues(
                request,
                Operation::GetCategory,
                category_endpoint(budget_id@, category_id@),
            ),
    {
        let mut endpoint = String::from_str("/budgets/");
        endpoint.append(budget_id);
        endpoint.append("/categories/");
        endpoint.append(category_id);
        self.request(Operation::GetCategory, endpoint)
    }

    /// The request for one category as of the month `date`.
    pub fn get_category_for_month(
        &self,
        budget_id: &str,
        date: &str,
        category_id: &str,
    ) -> (request: Request)
        ensures
            self.issues(
                request,
                Operation::GetCategoryForMonth,
                category_for_month_endpoint(budget_id@, date@, category_id@),
            ),
    {
        let mut endpoint = String::from_str("/budgets/");
        endpoint.append(budget_id);
        endpoint.append("/months/");
        endpoint.append(date);
        endpoint.append("/categories/");
        endpoint.append(category_id);
        self.request(Operation::GetCategoryForMonth, endpoint)
    }

    /// The request for the payees of a budget, or for those that changed since
    /// `last_knowledge_of_server`.
    pub fn get_payee_list(
        &self,
        budget_id: &str,
        last_knowledge_of_server: Option<i64>,
    ) -> (request: Request)
        ensures
            self.issues(
                request,
                Operation::GetPayeeList,
                payee_list_endpoint(budget_id@, last_knowledge_of_server),
            ),
    {
        let mut path = String::from_str("/budgets/");
        path.append(budget_id);
        path.append("/payees");
        let endpoint = listing(path, None, None, last_knowledge_of_server);
        self.request(Operation::GetPayeeList, endpoint)
    }

    /// The request for one payee.
    pub fn get_payee(&self, budget_id: &str, payee_id: &str) -> (request: Request)
        ensures
            self.issues(request, Operation::GetPayee, payee_endpoint(budget_id@, payee_id@)),
    {
        let mut endpoint = String::from_str("/budgets/");
        endpoint.append(budget_id);
        endpoint.append("/payees/");
        endpoint.append(payee_id);
        self.request(Operation::GetPayee, endpoint)
    }

    /// The request for the payee locations of a budget, or for those that
    /// changed since `last_knowledge_of_server`.
    pub fn get_payee_location_list(
        &self,
        budget_id: &str,
        last_knowledge_of_server: Option<i64>,
    ) -> (request: Request)
        ensures
            self.issues(
                request,
                Operation::GetPayeeLocationList,
                payee_location_list_endpoint(budget_id@, last_knowledge_of_server),
            ),
    {
        let mut path = String::from_str("/budgets/");
        path.append(budget_id);
        path.append("/payee_locations");
        let endpoint = listing(path, None, None, last_knowledge_of_server);
        self.request(Operation::GetPayeeLocationList, endpoint)
    }

    /// The request for one payee location.
    pub fn get_payee_location(&self, budget_id: &str, payee_location_id: &str) -> (request: Request)
        ensures
            self.issues(
                request,
                Operation::GetPayeeLocation,
                payee_location_endpoint(budget_id@, payee_location_id@),
            ),
    {
        let mut endpoint = String::from_str("/budgets/");
        endpoint.append(budget_id);
        endpoint.append("/payee_locations/");
        endpoint.append(payee_location_id);
        self.request(Operation::GetPayeeLocation, endpoint)
    }

    /// The request for the locations of one payee.
    pub fn get_payee_locations_for_payee(
        &self,
        budget_id: &str,
        payee_id: &str,
    ) -> (request: Request)
        ensures
            self.issues(
                request,
                Operation::GetPayeeLocationsForPayee,
                payee_locations_for_payee_endpoint(budget_id@, payee_id@),
            ),
    {
        let mut endpoint = String::from_str("/budgets/");
        endpoint.append(budget_id);
        endpoint.append("/payees/");
        endpoint.append(payee_id);
        endpoint.append("/payee_locations");
        self.request(Operation::GetPayeeLocationsForPayee, endpoint)
    }

    /// The request for the months of a budget, or for those that changed since
    /// `last_knowledge_of_server`.
    pub fn get_month_list(
        &self,
        budget_id: &str,
        last_knowledge_of_server: Option<i64>,
    ) -> (request: Request)
        ensures
            self.issues(
                request,
                Operation::GetMonthList,
                month_list_endpoint(budget_id@, last_knowledge_of_server),
            ),
    {
        let mut path = String::from_str("/budgets/");
        path.append(budget_id);
        path.append("/months");
        let endpoint = listing(path, None, None, last_knowledge_of_server);
        self.request(Operation::GetMonthList, endpoint)
    }

    /// The request for one month with its category balances.
    pub fn get_month(&self, budget_id: &str, date: &str) -> (request: Request)
        ensures
            self.issues(request, Operation::GetMonth, month_endpoint(budget_id@, date@)),
    {
        let mut endpoint = String::from_str("/budgets/");
        endpoint.append(budget_id);
        endpoint.append("/months/");
        endpoint.append(date);
        self.request(Operation::GetMonth, endpoint)
    }

    /// The request for the transactions of a budget, narrowed by the filters
    /// that are present.
    pub fn get_transaction_list(
        &self,
        budget_id: &str,
        since_date: Option<&str>,
        transaction_type: Option<&str>,
        last_knowledge_of_server: Option<i64>,
    ) -> (request: Request)
        ensures
            self.issues(
                request,
                Operation::GetTransactionList,
                transaction_list_endpoint(
                    budget_id@,
                    text_of(since_date),
                    text_of(transaction_type),
                    last_knowledge_of_server,
                ),
            ),
    {
        let mut path = String::from_str("/budgets/");
        path.append(budget_id);
        path.append("/transactions");
        let endpoint = listing(path, since_date, transaction_type, last_knowledge_of_server);
        self.request(Operation::GetTransactionList, endpoint)
    }

    /// The request for one transaction.
    pub fn get_transaction(&self, budget_id: &str, transaction_id: &str) -> (request: Request)
        ensures
            self.issues(
                request,
                Operation::GetTransaction,
                transaction_endpoint(budget_id@, transaction_id@),
            ),
    {
        let mut endpoint = String::from_str("/budgets/");
        endpoint.append(budget_id);
        endpoint.append("/transactions/");
        endpoint.append(transaction_id);
        self.request(Operation::GetTransaction, endpoint)
    }

    /// The request for the transactions of one account, narrowed by the
    /// filters that are present.
    pub fn get_transaction_list_for_account(
        &self,
        budget_id: &str,
        account_id: &str,
        since_date: Option<&str>,
        transaction_type: Option<&str>,
        last_knowledge_of_server: Option<i64>,
    ) -> (request: Request)
        ensures
            self.issues(
                request,
                Operation::GetTransactionListForAccount,
                transaction_list_for_account_endpoint(
                    budget_id@,
                    account_id@,
                    text_of(since_date),
                    text_of(transaction_type),
                    last_knowledge_of_server,
                ),
            ),
    {
        let mut path = String::from_str("/budgets/");
        path.append(budget_id);
        path.append("/accounts/");
        path.append(account_id);
        path.append("/transactions");
        let endpoint = listing(path, since_date, transaction_type, last_knowledge_of_server);
        self.request(Operation::GetTransactionListForAccount, endpoint)
    }

    /// The request for the transactions of one category, narrowed by the
    /// filters that are present.
    pub fn get_transaction_list_for_category(
        &self,
        budget_id: &str,
        category_id: &str,
        since_date: Option<&str>,
        transaction_type: Option<&str>,
        last_knowledge_of_server: Option<i64>,
    ) -> (request: Request)
        ensures
            self.issues(
                request,
                Operation::GetTransactionListForCategory,
                transaction_list_for_category_endpoint(
                    budget_id@,
                    category_id@,
                    text_of(since_date),
                    text_of(transaction_type),
                    last_knowledge_of_server,
                ),
            ),
    {
        let mut path = String::from_str("/budgets/");
        path.append(budget_id);
        path.append("/categories/");
        path.append(category_id);
        path.append("/transactions");
        let endpoint = listing(path, since_date, transaction_type, last_knowledge_of_server);
        self.request(Operation::GetTransactionListForCategory, endpoint)
    }

    /// The request for the transactions of one payee as hybrid entries,
    /// narrowed by the filters that are present.
    pub fn get_transaction_list_for_payee(
        &self,
        budget_id: &str,
        payee_id: &str,
        since_date: Option<&str>,
        transaction_type: Option<&str>,
        last_knowledge_of_server: Option<i64>,
    ) -> (request: Request)
        ensures
            self.issues(
                request,
                Operation::GetTransactionListForPayee,
                transaction_list_for_payee_endpoint(
                    budget_id@,
                    payee_id@,
                    text_of(since_date),
                    text_of(transaction_type),
                    last_knowledge_of_server,
                ),
            ),
    {
        let mut path = String::from_str("/budgets/");
        path.append(budget_id);
        path.append("/payees/");
        path.append(payee_id);
        path.append("/transactions");
        let endpoint = listing(path, since_date, transaction_type, last_knowledge_of_server);
        self.request(Operation::GetTransactionListForPayee, endpoint)
    }

    /// The request for the scheduled transactions of a budget, or for those
    /// that changed since `last_knowledge_of_server`.
    pub fn get_scheduled_transaction_list(
        &self,
        budget_id: &str,
        last_knowledge_of_server: Option<i64>,
    ) -> (request: Request)
        ensures
            self.issues(
                request,
                Operation::GetScheduledTransactionList,
                scheduled_transaction_list_endpoint(budget_id@, last_knowledge_of_server),
            ),
    {
        let mut path = String::from_str("/budgets/");
        path.append(budget_id);
        path.append("/scheduled_transactions");
        let endpoint = listing(path, None, None, last_knowledge_of_server);
        self.request(Operation::GetScheduledTransactionList, endpoint)
    }

    /// The request for one scheduled transaction.
    pub fn get_scheduled_transaction(
        &self,
        budget_id: &str,
        scheduled_transaction_id: &str,
    ) -> (request: Request)
        ensures
            self.issues(
                request,
                Operation::GetScheduledTransaction,
                scheduled_transaction_endpoint(budget_id@, scheduled_transaction_id@),
            ),
    {
        let mut endpoint = String::from_str("/budgets/");
        endpoint.append(budget_id);
        endpoint.append("/scheduled_transactions/");
        endpoint.append(scheduled_transaction_id);
        self.request(Operation::GetScheduledTransaction, endpoint)
    }
}

/// The cursor joins a listing's query as one more parameter, after the
/// filters that are present, which stay as they are.
pub proof fn lemma_cursor_leaves_filters(
    path: Seq<char>,
    since_date: Option<Seq<char>>,
    transaction_type: Option<Seq<char>>,
    cursor: i64,
)
    ensures
        filters(since_date, transaction_type, Some(cursor)) == filters(
            since_date,
            transaction_type,
            None,
        ).push(cursor_parameter(cursor)),
        filters(since_date, transaction_type, None).len() == 0 ==> with_query(
            path,
            filters(since_date, transaction_type, Some(cursor)),
        ) == path + "?"@ + cursor_parameter(cursor),
        filters(since_date, transaction_type, None).len() > 0 ==> with_query(
            path,
            filters(since_date, transaction_type, Some(cursor)),
        ) == with_query(path, filters(since_date, transaction_type, None)) + "&"@
            + cursor_parameter(cursor),
{
    let without = filters(since_date, transaction_type, None);
    let with = filters(since_date, transaction_type, Some(cursor));
    assert(with =~= without.push(cursor_parameter(cursor)));
    assert(with.drop_last() =~= without);
    if without.len() > 0 {
        assert(with_query(path, with) =~= with_query(path, without) + "&"@ + cursor_parameter(
            cursor,
        ));
    }
}

/// Listings that differ in the cursor alone differ in their endpoint: the
/// cursor that a request carries can be read off it.
pub proof fn lemma_cursor_is_legible(
    path: Seq<char>,
    since_date: Option<Seq<char>>,
    transaction_type: Option<Seq<char>>,
    first: i64,
    second: i64,
)
    requires
        with_query(path, filters(since_date, transaction_type, Some(first))) == with_query(
            path,
            filters(since_date, transaction_type, Some(second)),
        ),
    ensures
        first == second,
{
    lemma_cursor_leaves_filters(path, since_date, transaction_type, first);
    lemma_cursor_leaves_filters(path, since_date, transaction_type, second);
    let without = filters(since_date, transaction_type, None);
    let stem = if without.len() == 0 {
        path + "?"@ + "last_knowledge_of_server="@
    } else {
        with_query(path, without) + "&"@ + "last_knowledge_of_server="@
    };
    let one = with_query(path, filters(since_date, transaction_type, Some(first)));
    let two = with_query(path, filters(since_date, transaction_type, Some(second)));
    assert(one =~= stem + decimal(first as int));
    assert(two =~= stem + decimal(second as int));
    assert(decimal(first as int) =~= one.subrange(stem.len() as int, one.len() as int));
    assert(decimal(second as int) =~= two.subrange(stem.len() as int, two.len() as int));
    crate::text::lemma_decimal_injective(first as int, second as int);
}

} // verus!
