use ynab_api::models::{
    AccountType, ClearedStatus, DebtTransactionType, FlagColor, GoalType, ScheduleFrequency,
    TransactionType,
};

#[test]
fn account_types_have_their_names() {
    let names = [
        (AccountType::Checking, "checking"),
        (AccountType::Savings, "savings"),
        (AccountType::Cash, "cash"),
        (AccountType::CreditCard, "creditCard"),
        (AccountType::LineOfCredit, "lineOfCredit"),
        (AccountType::OtherAsset, "otherAsset"),
        (AccountType::OtherLiability, "otherLiability"),
        (AccountType::Mortgage, "mortgage"),
        (AccountType::AutoLoan, "autoLoan"),
        (AccountType::StudentLoan, "studentLoan"),
        (AccountType::PersonalLoan, "personalLoan"),
        (AccountType::MedicalDebt, "medicalDebt"),
        (AccountType::OtherDebt, "otherDebt"),
    ];
    for (value, name) in names {
        assert_eq!(value.wire_name(), name);
        assert_eq!(AccountType::from_wire_name(name), Some(value));
    }
}

#[test]
fn goal_types_have_their_names() {
    let names = [
        (GoalType::TB, "TB"),
        (GoalType::TBD, "TBD"),
        (GoalType::MF, "MF"),
        (GoalType::NEED, "NEED"),
        (GoalType::DEBT, "DEBT"),
    ];
    for (value, name) in names {
        assert_eq!(value.wire_name(), name);
        assert_eq!(GoalType::from_wire_name(name), Some(value));
    }
}

#[test]
fn cleared_statuses_have_their_names() {
    let names = [
        (ClearedStatus::Cleared, "cleared"),
        (ClearedStatus::Uncleared, "uncleared"),
        (ClearedStatus::Reconciled, "reconciled"),
    ];
    for (value, name) in names {
        assert_eq!(value.wire_name(), name);
        assert_eq!(ClearedStatus::from_wire_name(name), Some(value));
    }
}

#[test]
fn flag_colours_have_their_names() {
    let names = [
        (FlagColor::Red, "red"),
        (FlagColor::Orange, "orange"),
        (FlagColor::Yellow, "yellow"),
        (FlagColor::Green, "green"),
        (FlagColor::Blue, "blue"),
        (FlagColor::Purple, "purple"),
    ];
    for (value, name) in names {
        assert_eq!(value.wire_name(), name);
        assert_eq!(FlagColor::from_wire_name(name), Some(value));
    }
}

#[test]
fn debt_transaction_types_have_their_names() {
    let names = [
        (DebtTransactionType::Payment, "payment"),
        (DebtTransactionType::Refund, "refund"),
        (DebtTransactionType::Fee, "fee"),
        (DebtTransactionType::Interest, "interest"),
        (DebtTransactionType::Escrow, "escrow"),
        (DebtTransactionType::BalancedAdjustment, "balancedAdjustment"),
        (DebtTransactionType::Credit, "credit"),
        (DebtTransactionType::Charge, "charge"),
    ];
    for (value, name) in names {
        assert_eq!(value.wire_name(), name);
        assert_eq!(DebtTransactionType::from_wire_name(name), Some(value));
    }
}

#[test]
fn frequencies_have_their_names() {
    let names = [
        (ScheduleFrequency::Never, "never"),
        (ScheduleFrequency::Daily, "daily"),
        (ScheduleFrequency::Weekly, "weekly"),
        (ScheduleFrequency::EveryOtherWeek, "everyOtherWeek"),
        (ScheduleFrequency::TwiceAMonth, "twiceAMonth"),
        (ScheduleFrequency::Every4Weeks, "every4Weeks"),
        (ScheduleFrequency::Monthly, "monthly"),
        (ScheduleFrequency::EveryOtherMonth, "everyOtherMonth"),
        (ScheduleFrequency::Every3Months, "every3Months"),
        (ScheduleFrequency::Every4Months, "every4Months"),
        (ScheduleFrequency::TwiceAYear, "twiceAYear"),
        (ScheduleFrequency::Yearly, "yearly"),
        (ScheduleFrequency::EveryOtherYear, "everyOtherYear"),
    ];
    for (value, name) in names {
        assert_eq!(value.wire_name(), name);
        assert_eq!(ScheduleFrequency::from_wire_name(name), Some(value));
    }
}

#[test]
fn hybrid_discriminators_have_their_names() {
    assert_eq!(TransactionType::Transaction.wire_name(), "transaction");
    assert_eq!(TransactionType::SubTransaction.wire_name(), "sub_transaction");
    assert_eq!(TransactionType::from_wire_name("transaction"), Some(TransactionType::Transaction));
    assert_eq!(
        TransactionType::from_wire_name("sub_transaction"),
        Some(TransactionType::SubTransaction)
    );
    assert_eq!(
        TransactionType::from_wire_name("subTransaction"),
        Some(TransactionType::SubTransaction)
    );
}

#[test]
fn unknown_names_stand_for_nothing() {
    assert_eq!(AccountType::from_wire_name(""), None);
    assert_eq!(AccountType::from_wire_name("Checking"), None);
    assert_eq!(AccountType::from_wire_name("checking "), None);
    assert_eq!(AccountType::from_wire_name("credit_card"), None);
    assert_eq!(GoalType::from_wire_name("tb"), None);
    assert_eq!(ClearedStatus::from_wire_name("clear"), None);
    assert_eq!(FlagColor::from_wire_name("pink"), None);
    assert_eq!(DebtTransactionType::from_wire_name("fees"), None);
    assert_eq!(ScheduleFrequency::from_wire_name("every5Weeks"), None);
    assert_eq!(TransactionType::from_wire_name("subtransaction"), None);
    assert_eq!(TransactionType::from_wire_name("Transaction"), None);
}
