use ynab_api::client::Client;
use ynab_api::envelope::{
    interpret, require_knowledge, Decoded, Expect, Failure, Operation, ProtocolViolation, Reply,
};
use ynab_api::models::{
    Account, AccountType, AccountsResponse, AccountsResponseData, CategoriesResponse,
    CategoriesResponseData, Category, CategoryGroupWithCategories, ClearedStatus,
    HybridTransaction, HybridTransactionsResponse, HybridTransactionsResponseData, MonthSummariesResponse,
    MonthSummariesResponseData, MonthSummary, Payee, PayeeLocation, PayeeLocationsResponse,
    PayeeLocationsResponseData, PayeesResponse, PayeesResponseData, TransactionType,
};
use ynab_api::sync::{delta_of, Delta, Record, Replica};

fn ids(list: &[&str]) -> Vec<String> {
    list.iter().map(|id| String::from(*id)).collect()
}

fn category(id: &str, deleted: bool) -> Category {
    Category {
        id: String::from(id),
        category_group_id: String::from("g1"),
        category_group_name: None,
        name: String::from("Groceries"),
        hidden: false,
        original_category_group_id: None,
        note: None,
        budgeted: 0,
        activity: 0,
        balance: 0,
        goal_type: None,
        goal_day: None,
        goal_cadence: None,
        goal_cadence_frequency: None,
        goal_creation_month: None,
        goal_target: None,
        goal_target_month: None,
        goal_percentage_complete: None,
        goal_months_to_budget: None,
        goal_under_funded: None,
        goal_overall_funded: None,
        goal_overall_left: None,
        deleted,
    }
}

fn group(id: &str, deleted: bool, categories: Vec<Category>) -> CategoryGroupWithCategories {
    CategoryGroupWithCategories {
        id: String::from(id),
        name: String::from("Group"),
        hidden: false,
        deleted,
        categories,
    }
}

fn categories(groups: Vec<CategoryGroupWithCategories>, server_knowledge: i64) -> CategoriesResponse {
    CategoriesResponse { data: CategoriesResponseData { category_groups: groups, server_knowledge } }
}

fn payee(id: &str, deleted: bool) -> Payee {
    Payee { id: String::from(id), name: String::from("Shop"), transfer_account_id: None, deleted }
}

fn account(id: &str, deleted: bool) -> Account {
    Account {
        id: String::from(id),
        name: String::from("Checking"),
        account_type: AccountType::Checking,
        on_budget: true,
        closed: false,
        note: None,
        balance: 0,
        cleared_balance: 0,
        uncleared_balance: 0,
        transfer_payee_id: String::from("p-transfer"),
        direct_import_linked: None,
        direct_import_in_error: None,
        last_reconciled_at: None,
        debt_original_balance: None,
        debt_interest_rates: None,
        debt_minimum_payments: None,
        debt_escrow_amounts: None,
        deleted,
    }
}

fn month(key: &str, deleted: bool) -> MonthSummary {
    MonthSummary {
        month: String::from(key),
        note: None,
        income: 0,
        budgeted: 0,
        activity: 0,
        to_be_budgeted: 0,
        age_of_money: None,
        deleted,
    }
}

fn entry(id: &str, deleted: bool) -> HybridTransaction {
    HybridTransaction {
        id: String::from(id),
        date: String::from("2024-03-05"),
        amount: -1000,
        memo: None,
        cleared: ClearedStatus::Cleared,
        approved: true,
        flag_color: None,
        account_id: String::from("a1"),
        payee_id: None,
        category_id: None,
        transfer_account_id: None,
        matched_transaction_id: None,
        import_id: None,
        import_payee_name: None,
        import_payee_name_original: None,
        debt_transaction_type: None,
        deleted,
        transaction_type: TransactionType::Transaction,
        parent_transaction_id: None,
        account_name: String::from("Checking"),
        payee_name: None,
        category_name: None,
    }
}

#[test]
fn delta_splits_records_by_their_deleted_flag() {
    let payees = vec![payee("py1", false), payee("py2", true), payee("py3", false), payee("py4", true)];
    let delta = delta_of(&payees, Some(9));
    assert_eq!(delta.upserted, ids(&["py1", "py3"]));
    assert_eq!(delta.removed, ids(&["py2", "py4"]));
    assert_eq!(delta.server_knowledge, Some(9));
}

#[test]
fn delta_of_an_empty_listing_is_empty() {
    let payees: Vec<Payee> = Vec::new();
    let delta = delta_of(&payees, None);
    assert_eq!(delta, Delta { upserted: vec![], removed: vec![], server_knowledge: None });
}

#[test]
fn delta_loses_no_record() {
    let payees = vec![payee("py1", true), payee("py2", true), payee("py3", false)];
    let delta = delta_of(&payees, Some(1));
    assert_eq!(delta.upserted.len() + delta.removed.len(), payees.len());
    for record in &payees {
        let list = if record.is_deleted() { &delta.removed } else { &delta.upserted };
        assert!(list.contains(record.id()));
    }
}

#[test]
fn records_are_keyed_by_id_and_months_by_month() {
    assert_eq!(account("a1", false).id(), "a1");
    assert!(!account("a1", false).is_deleted());
    assert!(account("a1", true).is_deleted());
    assert_eq!(month("2024-03-01", false).id(), "2024-03-01");
    assert_eq!(category("c1", true).id(), "c1");
    assert!(category("c1", true).is_deleted());
    assert_eq!(group("g1", false, vec![]).id(), "g1");
    assert_eq!(entry("t1", false).id(), "t1");
    let location = PayeeLocation {
        id: String::from("l1"),
        payee_id: String::from("py1"),
        latitude: String::from("40.7"),
        longitude: String::from("-74.0"),
        deleted: true,
    };
    assert_eq!(location.id(), "l1");
    assert!(location.is_deleted());
}

#[test]
fn listing_deltas_carry_the_server_knowledge() {
    let accounts = AccountsResponse {
        data: AccountsResponseData {
            accounts: vec![account("a1", false), account("a2", true)],
            server_knowledge: 31,
        },
    };
    assert_eq!(
        accounts.delta(),
        Delta { upserted: ids(&["a1"]), removed: ids(&["a2"]), server_knowledge: Some(31) }
    );
    let payees = PayeesResponse {
        data: PayeesResponseData { payees: vec![payee("py1", true)], server_knowledge: 32 },
    };
    assert_eq!(
        payees.delta(),
        Delta { upserted: vec![], removed: ids(&["py1"]), server_knowledge: Some(32) }
    );
    let months = MonthSummariesResponse {
        data: MonthSummariesResponseData {
            months: vec![month("2024-02-01", false), month("2024-03-01", false)],
            server_knowledge: 33,
        },
    };
    assert_eq!(
        months.delta(),
        Delta {
            upserted: ids(&["2024-02-01", "2024-03-01"]),
            removed: vec![],
            server_knowledge: Some(33)
        }
    );
}

#[test]
fn hybrid_listing_moves_the_cursor() {
    let hybrid = HybridTransactionsResponse {
        data: HybridTransactionsResponseData {
            transactions: vec![entry("t1", false), entry("t2", true)],
            server_knowledge: 9,
        },
    };
    let delta = hybrid.delta();
    assert_eq!(delta.server_knowledge, Some(9));
    let mut replica = Replica::new();
    replica.advance(5);
    replica.apply(&delta);
    assert_eq!(replica.cursor(), Some(9));
    assert!(replica.contains("t1"));
    assert!(!replica.contains("t2"));
}

#[test]
fn hybrid_listing_without_server_knowledge_is_a_violation() {
    let request = Client::new(String::from("t")).get_transaction_list_for_payee(
        "B1", "py1", None, None, None,
    );
    let reply = Reply { status: 200, body: "{\"data\":{\"transactions\":[]}}".as_bytes().to_vec() };
    assert_eq!(reply.expects(), Expect::Payload);
    let result: Result<HybridTransactionsResponse, Failure> = interpret(
        request.operation,
        &reply,
        Decoded::Malformed(String::from("missing field `server_knowledge`")),
    );
    assert_eq!(
        result,
        Err(Failure::Protocol(ProtocolViolation {
            operation: Operation::GetTransactionListForPayee,
            status: 200,
            expected: Expect::Payload,
            detail: String::from("missing field `server_knowledge`"),
        }))
    );
}

#[test]
fn cursor_listing_without_server_knowledge_is_a_violation() {
    let reply = Reply { status: 200, body: "{\"data\":{\"payee_locations\":[]}}".as_bytes().to_vec() };
    let missing = Err(Failure::Protocol(ProtocolViolation {
        operation: Operation::GetPayeeLocationList,
        status: 200,
        expected: Expect::Payload,
        detail: String::from("the listing carries no server knowledge"),
    }));
    assert_eq!(require_knowledge(Operation::GetPayeeLocationList, &reply, None), missing);
    assert_eq!(require_knowledge(Operation::GetPayeeLocationList, &reply, Some(8)), Ok(Some(8)));
    assert_eq!(require_knowledge(Operation::GetPayeeLocationList, &reply, Some(-1)), Ok(Some(-1)));
    for operation in [
        Operation::GetBudget,
        Operation::GetAccountList,
        Operation::GetCategoryList,
        Operation::GetPayeeList,
        Operation::GetMonthList,
        Operation::GetTransactionList,
        Operation::GetTransactionListForAccount,
        Operation::GetTransactionListForCategory,
        Operation::GetTransactionListForPayee,
        Operation::GetScheduledTransactionList,
    ] {
        assert!(require_knowledge(operation, &reply, None).is_err());
        assert_eq!(require_knowledge(operation, &reply, Some(3)), Ok(Some(3)));
    }
}

#[test]
fn other_operations_may_come_without_server_knowledge() {
    let reply = Reply { status: 200, body: Vec::new() };
    for operation in [
        Operation::GetPayeeLocationsForPayee,
        Operation::GetUser,
        Operation::GetBudgets,
        Operation::GetAccount,
        Operation::GetMonth,
    ] {
        assert_eq!(require_knowledge(operation, &reply, None), Ok(None));
        assert_eq!(require_knowledge(operation, &reply, Some(4)), Ok(Some(4)));
    }
}

#[test]
fn location_listing_of_a_budget_has_to_carry_server_knowledge() {
    let reply = Reply { status: 200, body: Vec::new() };
    let location = PayeeLocation {
        id: String::from("l1"),
        payee_id: String::from("py1"),
        latitude: String::from("40.7"),
        longitude: String::from("-74.0"),
        deleted: true,
    };
    let without = PayeeLocationsResponse {
        data: PayeeLocationsResponseData {
            payee_locations: vec![location.clone()],
            server_knowledge: None,
        },
    };
    assert_eq!(
        without.delta(Operation::GetPayeeLocationList, &reply),
        Err(Failure::Protocol(ProtocolViolation {
            operation: Operation::GetPayeeLocationList,
            status: 200,
            expected: Expect::Payload,
            detail: String::from("the listing carries no server knowledge"),
        }))
    );
    let with = PayeeLocationsResponse {
        data: PayeeLocationsResponseData { payee_locations: vec![location], server_knowledge: Some(8) },
    };
    let delta = with.delta(Operation::GetPayeeLocationList, &reply).unwrap();
    assert_eq!(delta, Delta { upserted: vec![], removed: ids(&["l1"]), server_knowledge: Some(8) });
    let mut replica = Replica::new();
    replica.apply(&Delta { upserted: ids(&["l1"]), removed: vec![], server_knowledge: Some(5) });
    replica.apply(&delta);
    assert_eq!(replica.cursor(), Some(8));
    assert!(!replica.contains("l1"));
}

#[test]
fn location_listing_of_a_payee_leaves_the_cursor() {
    let reply = Reply { status: 200, body: Vec::new() };
    let listing = PayeeLocationsResponse {
        data: PayeeLocationsResponseData { payee_locations: vec![], server_knowledge: None },
    };
    let delta = listing.delta(Operation::GetPayeeLocationsForPayee, &reply).unwrap();
    assert_eq!(delta, Delta { upserted: vec![], removed: vec![], server_knowledge: None });
    let mut replica = Replica::new();
    replica.advance(5);
    replica.apply(&delta);
    assert_eq!(replica.cursor(), Some(5));
}

#[test]
fn new_replica_is_empty_and_asks_for_everything() {
    let replica = Replica::new();
    assert_eq!(replica.len(), 0);
    assert_eq!(replica.cursor(), None);
    assert!(!replica.contains("c1"));
    let request = Client::new(String::from("t")).get_category_list("B1", replica.cursor());
    assert_eq!(request.endpoint, "/budgets/B1/categories");
}

#[test]
fn advance_stores_the_cursor_and_keeps_the_ids() {
    let mut replica = Replica::new();
    replica.apply(&Delta { upserted: ids(&["a", "b"]), removed: vec![], server_knowledge: None });
    replica.advance(77);
    assert_eq!(replica.cursor(), Some(77));
    assert_eq!(replica.len(), 2);
    replica.advance(-1);
    assert_eq!(replica.cursor(), Some(-1));
}

#[test]
fn apply_holds_each_id_once() {
    let mut replica = Replica::new();
    replica.apply(&Delta {
        upserted: ids(&["a", "b", "a", "a"]),
        removed: vec![],
        server_knowledge: Some(1),
    });
    assert_eq!(replica.len(), 2);
    replica.apply(&Delta { upserted: ids(&["b", "c"]), removed: vec![], server_knowledge: Some(2) });
    assert_eq!(replica.len(), 3);
    assert!(replica.contains("a") && replica.contains("b") && replica.contains("c"));
}

#[test]
fn apply_drops_deleted_ids() {
    let mut replica = Replica::new();
    replica.apply(&Delta {
        upserted: ids(&["a", "b", "c"]),
        removed: vec![],
        server_knowledge: Some(1),
    });
    replica.apply(&Delta {
        upserted: vec![],
        removed: ids(&["b", "zz", "b"]),
        server_knowledge: Some(2),
    });
    assert_eq!(replica.len(), 2);
    assert!(replica.contains("a"));
    assert!(!replica.contains("b"));
    assert!(replica.contains("c"));
    assert!(!replica.contains("zz"));
    assert_eq!(replica.cursor(), Some(2));
}

#[test]
fn apply_lets_presence_win_over_deletion() {
    let mut replica = Replica::new();
    replica.apply(&Delta {
        upserted: ids(&["a"]),
        removed: ids(&["a", "b"]),
        server_knowledge: Some(1),
    });
    assert!(replica.contains("a"));
    assert!(!replica.contains("b"));
    assert_eq!(replica.len(), 1);
}

#[test]
fn apply_does_not_depend_on_the_order_of_records() {
    let one = vec![payee("py1", false), payee("py2", true), payee("py3", false), payee("py4", true)];
    let other = vec![payee("py4", true), payee("py3", false), payee("py2", true), payee("py1", false)];
    let start = Delta { upserted: ids(&["py2", "py4", "py9"]), removed: vec![], server_knowledge: None };
    let mut first = Replica::new();
    first.apply(&start);
    first.apply(&delta_of(&one, Some(4)));
    let mut second = Replica::new();
    second.apply(&start);
    second.apply(&delta_of(&other, Some(4)));
    for id in ["py1", "py2", "py3", "py4", "py9"] {
        assert_eq!(first.contains(id), second.contains(id));
    }
    assert_eq!(first.len(), 3);
    assert_eq!(second.len(), 3);
    assert_eq!(first.cursor(), second.cursor());
}

#[test]
fn deleted_category_is_removed_and_cursor_stored() {
    let client = Client::new(String::from("t"));
    let mut replica = Replica::new();
    replica.apply(&Delta { upserted: ids(&["c1", "c2"]), removed: vec![], server_knowledge: Some(100) });
    assert!(replica.contains("c1"));

    let request = client.get_category_list("B1", replica.cursor());
    assert_eq!(request.endpoint, "/budgets/B1/categories?last_knowledge_of_server=100");

    let answer = categories(vec![group("g1", false, vec![category("c1", true)])], 150);
    let body = "{\"data\":{\"category_groups\":[{\"id\":\"g1\",\"name\":\"Group\",\"hidden\":false,\"deleted\":false,\"categories\":[{\"id\":\"c1\",\"deleted\":true}]}],\"server_knowledge\":150}}";
    let reply = Reply { status: 200, body: body.as_bytes().to_vec() };
    let listing = interpret(request.operation, &reply, Decoded::Payload(answer)).unwrap();

    let delta = listing.category_delta();
    assert_eq!(delta.removed, ids(&["c1"]));
    assert!(delta.upserted.is_empty());
    assert_eq!(delta.server_knowledge, Some(150));
    assert_eq!(listing.group_delta().upserted, ids(&["g1"]));
    assert!(listing.group_delta().removed.is_empty());

    replica.apply(&delta);
    assert!(!replica.contains("c1"));
    assert!(replica.contains("c2"));
    assert_eq!(replica.cursor(), Some(150));
    let next = client.get_category_list("B1", replica.cursor());
    assert_eq!(next.endpoint, "/budgets/B1/categories?last_knowledge_of_server=150");
}

#[test]
fn category_delta_reads_every_group() {
    let listing = categories(
        vec![
            group("g1", false, vec![category("c1", false), category("c2", true)]),
            group("g2", true, vec![]),
            group("g3", false, vec![category("c3", true), category("c4", false)]),
        ],
        12,
    );
    let delta = listing.category_delta();
    assert_eq!(delta.upserted, ids(&["c1", "c4"]));
    assert_eq!(delta.removed, ids(&["c2", "c3"]));
    let groups = listing.group_delta();
    assert_eq!(groups.upserted, ids(&["g1", "g3"]));
    assert_eq!(groups.removed, ids(&["g2"]));
    assert_eq!(groups.server_knowledge, Some(12));
}

#[test]
fn the_same_payload_gives_the_same_delta() {
    let listing = categories(
        vec![group("g1", false, vec![category("c1", false), category("c2", true)])],
        12,
    );
    let before = listing.clone();
    assert_eq!(listing.category_delta(), listing.category_delta());
    assert_eq!(listing.group_delta(), listing.group_delta());
    assert_eq!(listing, before);
}

/// A service that remembers at which knowledge each payee last changed and
/// answers a listing with what changed after the cursor.
struct Ledger {
    changes: Vec<(i64, Payee)>,
}

impl Ledger {
    fn knowledge(&self) -> i64 {
        self.changes.iter().map(|change| change.0).max().unwrap_or(0)
    }

    fn answer(&self, endpoint: &str) -> PayeesResponse {
        let marker = "last_knowledge_of_server=";
        let since = match endpoint.find(marker) {
            Some(at) => endpoint[at + marker.len()..].parse::<i64>().unwrap(),
            None => i64::MIN,
        };
        let payees =
            self.changes.iter().filter(|change| change.0 > since).map(|change| change.1.clone());
        PayeesResponse {
            data: PayeesResponseData { payees: payees.collect(), server_knowledge: self.knowledge() },
        }
    }
}

#[test]
fn reissued_request_asks_only_for_later_changes() {
    let client = Client::new(String::from("t"));
    let mut ledger = Ledger {
        changes: vec![(10, payee("py1", false)), (20, payee("py2", false)), (30, payee("py3", true))],
    };
    let mut replica = Replica::new();

    let first = ledger.answer(&client.get_payee_list("B1", replica.cursor()).endpoint);
    assert_eq!(first.data.payees.len(), 3);
    replica.apply(&first.delta());
    assert_eq!(replica.cursor(), Some(30));
    assert!(replica.contains("py1") && replica.contains("py2") && !replica.contains("py3"));

    let again = client.get_payee_list("B1", replica.cursor());
    assert_eq!(again.endpoint, "/budgets/B1/payees?last_knowledge_of_server=30");
    let second = ledger.answer(&again.endpoint);
    assert!(second.data.payees.is_empty());
    replica.apply(&second.delta());
    assert_eq!(replica.cursor(), Some(30));
    assert_eq!(replica.len(), 2);

    ledger.changes.push((40, payee("py2", true)));
    ledger.changes.push((41, payee("py4", false)));
    let third = ledger.answer(&client.get_payee_list("B1", replica.cursor()).endpoint);
    assert_eq!(third.data.payees.len(), 2);
    replica.apply(&third.delta());
    assert_eq!(replica.cursor(), Some(41));
    assert!(replica.contains("py1") && !replica.contains("py2") && replica.contains("py4"));
    assert_eq!(replica.len(), 2);
}

#[test]
fn operation_of_the_category_listing_is_kept() {
    let request = Client::new(String::from("t")).get_category_list("B1", Some(100));
    assert_eq!(request.operation, Operation::GetCategoryList);
}
