//! The names under which the enumerations of the model travel.
//!
//! Each value has one name, and a name stands for at most one value. The
//! discriminator of a hybrid entry is `transaction` or `sub_transaction`; for
//! the latter the spelling `subTransaction` is understood as well.

use crate::models::{
    AccountType, ClearedStatus, DebtTransactionType, FlagColor, GoalType, ScheduleFrequency,
    TransactionType,
};
use crate::text::same;
use vstd::prelude::*;

verus! {

impl AccountType {
    /// The name under which the kind of account travels.
    pub open spec fn wire(self) -> Seq<char> {
        match self {
            AccountType::Checking => "checking"@,
            AccountType::Savings => "savings"@,
            AccountType::Cash => "cash"@,
            AccountType::CreditCard => "creditCard"@,
            AccountType::LineOfCredit => "lineOfCredit"@,
            AccountType::OtherAsset => "otherAsset"@,
            AccountType::OtherLiability => "otherLiability"@,
            AccountType::Mortgage => "mortgage"@,
            AccountType::AutoLoan => "autoLoan"@,
            AccountType::StudentLoan => "studentLoan"@,
            AccountType::PersonalLoan => "personalLoan"@,
            AccountType::MedicalDebt => "medicalDebt"@,
            AccountType::OtherDebt => "otherDebt"@,
        }
    }

    /// The kind of account that travels under `name`, if there is one.
    pub open spec fn named(name: Seq<char>) -> Option<AccountType> {
        if name == "checking"@ {
            Some(AccountType::Checking)
        } else if name == "savings"@ {
            Some(AccountType::Savings)
        } else if name == "cash"@ {
            Some(AccountType::Cash)
        } else if name == "creditCard"@ {
            Some(AccountType::CreditCard)
        } else if name == "lineOfCredit"@ {
            Some(AccountType::LineOfCredit)
        } else if name == "otherAsset"@ {
            Some(AccountType::OtherAsset)
        } else if name == "otherLiability"@ {
            Some(AccountType::OtherLiability)
        } else if name == "mortgage"@ {
            Some(AccountType::Mortgage)
        } else if name == "autoLoan"@ {
            Some(AccountType::AutoLoan)
        } else if name == "studentLoan"@ {
            Some(AccountType::StudentLoan)
        } else if name == "personalLoan"@ {
            Some(AccountType::PersonalLoan)
        } else if name == "medicalDebt"@ {
            Some(AccountType::MedicalDebt)
        } else if name == "otherDebt"@ {
            Some(AccountType::OtherDebt)
        } else {
            None
        }
    }

    /// The name under which the kind of account travels.
    pub fn wire_name(&self) -> (name: &'static str)
        ensures
            name@ == self.wire(),
    {
        match self {
            AccountType::Checking => "checking",
            AccountType::Savings => "savings",
            AccountType::Cash => "cash",
            AccountType::CreditCard => "creditCard",
            AccountType::LineOfCredit => "lineOfCredit",
            AccountType::OtherAsset => "otherAsset",
            AccountType::OtherLiability => "otherLiability",
            AccountType::Mortgage => "mortgage",
            AccountType::AutoLoan => "autoLoan",
            AccountType::StudentLoan => "studentLoan",
            AccountType::PersonalLoan => "personalLoan",
            AccountType::MedicalDebt => "medicalDebt",
            AccountType::OtherDebt => "otherDebt",
        }
    }

    /// The kind of account that travels under `name`, if there is one.
    pub fn from_wire_name(name: &str) -> (value: Option<AccountType>)
        ensures
            value == Self::named(name@),
    {
        if same(name, "checking") {
            Some(AccountType::Checking)
        } else if same(name, "savings") {
            Some(AccountType::Savings)
        } else if same(name, "cash") {
            Some(AccountType::Cash)
        } else if same(name, "creditCard") {
            Some(AccountType::CreditCard)
        } else if same(name, "lineOfCredit") {
            Some(AccountType::LineOfCredit)
        } else if same(name, "otherAsset") {
            Some(AccountType::OtherAsset)
        } else if same(name, "otherLiability") {
            Some(AccountType::OtherLiability)
        } else if same(name, "mortgage") {
            Some(AccountType::Mortgage)
        } else if same(name, "autoLoan") {
            Some(AccountType::AutoLoan)
        } else if same(name, "studentLoan") {
            Some(AccountType::StudentLoan)
        } else if same(name, "personalLoan") {
            Some(AccountType::PersonalLoan)
        } else if same(name, "medicalDebt") {
            Some(AccountType::MedicalDebt)
        } else if same(name, "otherDebt") {
            Some(AccountType::OtherDebt)
        } else {
            None
        }
    }

    /// Every kind of account is read back from its own name, and a name that is read
    /// as a value is the name of that value.
    pub proof fn lemma_names_round_trip(value: AccountType, name: Seq<char>)
        ensures
            Self::named(value.wire()) == Some(value),
            Self::named(name) == Some(value) ==> name == value.wire(),
    {
        reveal_strlit("checking");
        reveal_strlit("savings");
        reveal_strlit("cash");
        reveal_strlit("creditCard");
        reveal_strlit("lineOfCredit");
        reveal_strlit("otherAsset");
        reveal_strlit("otherLiability");
        reveal_strlit("mortgage");
        reveal_strlit("autoLoan");
        reveal_strlit("studentLoan");
        reveal_strlit("personalLoan");
        reveal_strlit("medicalDebt");
        reveal_strlit("otherDebt");
        // Names differ in their length, or in a character at some place.
        assert("checking"@.len() == 8);
        assert("checking"@[0] == 'c');
        assert("savings"@.len() == 7);
        assert("cash"@.len() == 4);
        assert("creditCard"@.len() == 10);
        assert("creditCard"@[0] == 'c');
        assert("lineOfCredit"@.len() == 12);
        assert("lineOfCredit"@[0] == 'l');
        assert("otherAsset"@.len() == 10);
        assert("otherAsset"@[0] == 'o');
        assert("otherLiability"@.len() == 14);
        assert("mortgage"@.len() == 8);
        assert("mortgage"@[0] == 'm');
        assert("autoLoan"@.len() == 8);
        assert("autoLoan"@[0] == 'a');
        assert("studentLoan"@.len() == 11);
        assert("studentLoan"@[0] == 's');
        assert("personalLoan"@.len() == 12);
        assert("personalLoan"@[0] == 'p');
        assert("medicalDebt"@.len() == 11);
        assert("medicalDebt"@[0] == 'm');
        assert("otherDebt"@.len() == 9);
    }
}

impl GoalType {
    /// The name under which the kind of goal travels.
    pub open spec fn wire(self) -> Seq<char> {
        match self {
            GoalType::TB => "TB"@,
            GoalType::TBD => "TBD"@,
            GoalType::MF => "MF"@,
            GoalType::NEED => "NEED"@,
            GoalType::DEBT => "DEBT"@,
        }
    }

    /// The kind of goal that travels under `name`, if there is one.
    pub open spec fn named(name: Seq<char>) -> Option<GoalType> {
        if name == "TB"@ {
            Some(GoalType::TB)
        } else if name == "TBD"@ {
            Some(GoalType::TBD)
        } else if name == "MF"@ {
            Some(GoalType::MF)
        } else if name == "NEED"@ {
            Some(GoalType::NEED)
        } else if name == "DEBT"@ {
            Some(GoalType::DEBT)
        } else {
            None
        }
    }

    /// The name under which the kind of goal travels.
    pub fn wire_name(&self) -> (name: &'static str)
        ensures
            name@ == self.wire(),
    {
        match self {
            GoalType::TB => "TB",
            GoalType::TBD => "TBD",
            GoalType::MF => "MF",
            GoalType::NEED => "NEED",
            GoalType::DEBT => "DEBT",
        }
    }

    /// The kind of goal that travels under `name`, if there is one.
    pub fn from_wire_name(name: &str) -> (value: Option<GoalType>)
        ensures
            value == Self::named(name@),
    {
        if same(name, "TB") {
            Some(GoalType::TB)
        } else if same(name, "TBD") {
            Some(GoalType::TBD)
        } else if same(name, "MF") {
            Some(GoalType::MF)
        } else if same(name, "NEED") {
            Some(GoalType::NEED)
        } else if same(name, "DEBT") {
            Some(GoalType::DEBT)
        } else {
            None
        }
    }

    /// Every kind of goal is read back from its own name, and a name that is read
    /// as a value is the name of that value.
    pub proof fn lemma_names_round_trip(value: GoalType, name: Seq<char>)
        ensures
            Self::named(value.wire()) == Some(value),
            Self::named(name) == Some(value) ==> name == value.wire(),
    {
        reveal_strlit("TB");
        reveal_strlit("TBD");
        reveal_strlit("MF");
        reveal_strlit("NEED");
        reveal_strlit("DEBT");
        // Names differ in their length, or in a character at some place.
        assert("TB"@.len() == 2);
        assert("TB"@[0] == 'T');
        assert("TBD"@.len() == 3);
        assert("MF"@.len() == 2);
        assert("MF"@[0] == 'M');
        assert("NEED"@.len() == 4);
        assert("NEED"@[0] == 'N');
        assert("DEBT"@.len() == 4);
        assert("DEBT"@[0] == 'D');
    }
}

impl ClearedStatus {
    /// The name under which the cleared status travels.
    pub open spec fn wire(self) -> Seq<char> {
        match self {
            ClearedStatus::Cleared => "cleared"@,
            ClearedStatus::Uncleared => "uncleared"@,
            ClearedStatus::Reconciled => "reconciled"@,
        }
    }

    /// The cleared status that travels under `name`, if there is one.
    pub open spec fn named(name: Seq<char>) -> Option<ClearedStatus> {
        if name == "cleared"@ {
            Some(ClearedStatus::Cleared)
        } else if name == "uncleared"@ {
            Some(ClearedStatus::Uncleared)
        } else if name == "reconciled"@ {
            Some(ClearedStatus::Reconciled)
        } else {
            None
        }
    }

    /// The name under which the cleared status travels.
    pub fn wire_name(&self) -> (name: &'static str)
        ensures
            name@ == self.wire(),
    {
        match self {
            ClearedStatus::Cleared => "cleared",
            ClearedStatus::Uncleared => "uncleared",
            ClearedStatus::Reconciled => "reconciled",
        }
    }

    /// The cleared status that travels under `name`, if there is one.
    pub fn from_wire_name(name: &str) -> (value: Option<ClearedStatus>)
        ensures
            value == Self::named(name@),
    {
        if same(name, "cleared") {
            Some(ClearedStatus::Cleared)
        } else if same(name, "uncleared") {
            Some(ClearedStatus::Uncleared)
        } else if same(name, "reconciled") {
            Some(ClearedStatus::Reconciled)
        } else {
            None
        }
    }

    /// Every cleared status is read back from its own name, and a name that is read
    /// as a value is the name of that value.
    pub proof fn lemma_names_round_trip(value: ClearedStatus, name: Seq<char>)
        ensures
            Self::named(value.wire()) == Some(value),
            Self::named(name) == Some(value) ==> name == value.wire(),
    {
        reveal_strlit("cleared");
        reveal_strlit("uncleared");
        reveal_strlit("reconciled");
        // Names differ in their length, or in a character at some place.
        assert("cleared"@.len() == 7);
        assert("uncleared"@.len() == 9);
        assert("reconciled"@.len() == 10);
    }
}

impl FlagColor {
    /// The name under which the flag colour travels.
    pub open spec fn wire(self) -> Seq<char> {
        match self {
            FlagColor::Red => "red"@,
            FlagColor::Orange => "orange"@,
            FlagColor::Yellow => "yellow"@,
            FlagColor::Green => "green"@,
            FlagColor::Blue => "blue"@,
            FlagColor::Purple => "purple"@,
        }
    }

    /// The flag colour that travels under `name`, if there is one.
    pub open spec fn named(name: Seq<char>) -> Option<FlagColor> {
        if name == "red"@ {
            Some(FlagColor::Red)
        } else if name == "orange"@ {
            Some(FlagColor::Orange)
        } else if name == "yellow"@ {
            Some(FlagColor::Yellow)
        } else if name == "green"@ {
            Some(FlagColor::Green)
        } else if name == "blue"@ {
            Some(FlagColor::Blue)
        } else if name == "purple"@ {
            Some(FlagColor::Purple)
        } else {
            None
        }
    }

    /// The name under which the flag colour travels.
    pub fn wire_name(&self) -> (name: &'static str)
        ensures
            name@ == self.wire(),
    {
        match self {
            FlagColor::Red => "red",
            FlagColor::Orange => "orange",
            FlagColor::Yellow => "yellow",
            FlagColor::Green => "green",
            FlagColor::Blue => "blue",
            FlagColor::Purple => "purple",
        }
    }

    /// The flag colour that travels under `name`, if there is one.
    pub fn from_wire_name(name: &str) -> (value: Option<FlagColor>)
        ensures
            value == Self::named(name@),
    {
        if same(name, "red") {
            Some(FlagColor::Red)
        } else if same(name, "orange") {
            Some(FlagColor::Orange)
        } else if same(name, "yellow") {
            Some(FlagColor::Yellow)
        } else if same(name, "green") {
            Some(FlagColor::Green)
        } else if same(name, "blue") {
            Some(FlagColor::Blue)
        } else if same(name, "purple") {
            Some(FlagColor::Purple)
        } else {
            None
        }
    }

    /// Every flag colour is read back from its own name, and a name that is read
    /// as a value is the name of that value.
    pub proof fn lemma_names_round_trip(value: FlagColor, name: Seq<char>)
        ensures
            Self::named(value.wire()) == Some(value),
            Self::named(name) == Some(value) ==> name == value.wire(),
    {
        reveal_strlit("red");
        reveal_strlit("orange");
        reveal_strlit("yellow");
        reveal_strlit("green");
        reveal_strlit("blue");
        reveal_strlit("purple");
        // Names differ in their length, or in a character at some place.
        assert("red"@.len() == 3);
        assert("orange"@.len() == 6);
        assert("orange"@[0] == 'o');
        assert("yellow"@.len() == 6);
        assert("yellow"@[0] == 'y');
        assert("green"@.len() == 5);
        assert("blue"@.len() == 4);
        assert("purple"@.len() == 6);
        assert("purple"@[0] == 'p');
    }
}

impl DebtTransactionType {
    /// The name under which the kind of debt transaction travels.
    pub open spec fn wire(self) -> Seq<char> {
        match self {
            DebtTransactionType::Payment => "payment"@,
            DebtTransactionType::Refund => "refund"@,
            DebtTransactionType::Fee => "fee"@,
            DebtTransactionType::Interest => "interest"@,
            DebtTransactionType::Escrow => "escrow"@,
            DebtTransactionType::BalancedAdjustment => "balancedAdjustment"@,
            DebtTransactionType::Credit => "credit"@,
            DebtTransactionType::Charge => "charge"@,
        }
    }

    /// The kind of debt transaction that travels under `name`, if there is one.
    pub open spec fn named(name: Seq<char>) -> Option<DebtTransactionType> {
        if name == "payment"@ {
            Some(DebtTransactionType::Payment)
        } else if name == "refund"@ {
            Some(DebtTransactionType::Refund)
        } else if name == "fee"@ {
            Some(DebtTransactionType::Fee)
        } else if name == "interest"@ {
            Some(DebtTransactionType::Interest)
        } else if name == "escrow"@ {
            Some(DebtTransactionType::Escrow)
        } else if name == "balancedAdjustment"@ {
            Some(DebtTransactionType::BalancedAdjustment)
        } else if name == "credit"@ {
            Some(DebtTransactionType::Credit)
        } else if name == "charge"@ {
            Some(DebtTransactionType::Charge)
        } else {
            None
        }
    }

    /// The name under which the kind of debt transaction travels.
    pub fn wire_name(&self) -> (name: &'static str)
        ensures
            name@ == self.wire(),
    {
        match self {
            DebtTransactionType::Payment => "payment",
            DebtTransactionType::Refund => "refund",
            DebtTransactionType::Fee => "fee",
            DebtTransactionType::Interest => "interest",
            DebtTransactionType::Escrow => "escrow",
            DebtTransactionType::BalancedAdjustment => "balancedAdjustment",
            DebtTransactionType::Credit => "credit",
            DebtTransactionType::Charge => "charge",
        }
    }

    /// The kind of debt transaction that travels under `name`, if there is one.
    pub fn from_wire_name(name: &str) -> (value: Option<DebtTransactionType>)
        ensures
            value == Self::named(name@),
    {
        if same(name, "payment") {
            Some(DebtTransactionType::Payment)
        } else if same(name, "refund") {
            Some(DebtTransactionType::Refund)
        } else if same(name, "fee") {
            Some(DebtTransactionType::Fee)
        } else if same(name, "interest") {
            Some(DebtTransactionType::Interest)
        } else if same(name, "escrow") {
            Some(DebtTransactionType::Escrow)
        } else if same(name, "balancedAdjustment") {
            Some(DebtTransactionType::BalancedAdjustment)
        } else if same(name, "credit") {
            Some(DebtTransactionType::Credit)
        } else if same(name, "charge") {
            Some(DebtTransactionType::Charge)
        } else {
            None
        }
    }

    /// Every kind of debt transaction is read back from its own name, and a name that is read
    /// as a value is the name of that value.
    pub proof fn lemma_names_round_trip(value: DebtTransactionType, name: Seq<char>)
        ensures
            Self::named(value.wire()) == Some(value),
            Self::named(name) == Some(value) ==> name == value.wire(),
    {
        reveal_strlit("payment");
        reveal_strlit("refund");
        reveal_strlit("fee");
        reveal_strlit("interest");
        reveal_strlit("escrow");
        reveal_strlit("balancedAdjustment");
        reveal_strlit("credit");
        reveal_strlit("charge");
        // Names differ in their length, or in a character at some place.
        assert("payment"@.len() == 7);
        assert("refund"@.len() == 6);
        assert("refund"@[0] == 'r');
        assert("fee"@.len() == 3);
        assert("interest"@.len() == 8);
        assert("escrow"@.len() == 6);
        assert("escrow"@[0] == 'e');
        assert("balancedAdjustment"@.len() == 18);
        assert("credit"@.len() == 6);
        assert("credit"@[0] == 'c');
        assert("credit"@[1] == 'r');
        assert("charge"@.len() == 6);
        assert("charge"@[0] == 'c');
        assert("charge"@[1] == 'h');
    }
}

impl TransactionType {
    /// The name under which the discriminator of a hybrid entry travels.
    pub open spec fn wire(self) -> Seq<char> {
        match self {
            TransactionType::Transaction => "transaction"@,
            TransactionType::SubTransaction => "sub_transaction"@,
        }
    }

    /// The discriminator of a hybrid entry that travels under `name`, if there is one.
    pub open spec fn named(name: Seq<char>) -> Option<TransactionType> {
        if name == "transaction"@ {
            Some(TransactionType::Transaction)
        } else if name == "sub_transaction"@ || name == "subTransaction"@ {
            Some(TransactionType::SubTransaction)
        } else {
            None
        }
    }

    /// The name under which the discriminator of a hybrid entry travels.
    pub fn wire_name(&self) -> (name: &'static str)
        ensures
            name@ == self.wire(),
    {
        match self {
            TransactionType::Transaction => "transaction",
            TransactionType::SubTransaction => "sub_transaction",
        }
    }

    /// The discriminator of a hybrid entry that travels under `name`, if there is one.
    pub fn from_wire_name(name: &str) -> (value: Option<TransactionType>)
        ensures
            value == Self::named(name@),
    {
        if same(name, "transaction") {
            Some(TransactionType::Transaction)
        } else if same(name, "sub_transaction") || same(name, "subTransaction") {
            Some(TransactionType::SubTransaction)
        } else {
            None
        }
    }

    /// Every discriminator of a hybrid entry is read back from its own name, and a name that is read
    /// as a value is the name of that value, or the second spelling of
    /// the sub-transaction discriminator.
    pub proof fn lemma_names_round_trip(value: TransactionType, name: Seq<char>)
        ensures
            Self::named(value.wire()) == Some(value),
            Self::named(name) == Some(value) ==> name == value.wire() || (value
                == TransactionType::SubTransaction && name == "subTransaction"@),
    {
        reveal_strlit("transaction");
        reveal_strlit("sub_transaction");
        reveal_strlit("subTransaction");
        // Names differ in their length, or in a character at some place.
        assert("transaction"@.len() == 11);
        assert("sub_transaction"@.len() == 15);
        assert("subTransaction"@.len() == 14);
    }
}

impl ScheduleFrequency {
    /// The name under which the frequency travels.
    pub open spec fn wire(self) -> Seq<char> {
        match self {
            ScheduleFrequency::Never => "never"@,
            ScheduleFrequency::Daily => "daily"@,
            ScheduleFrequency::Weekly => "weekly"@,
            ScheduleFrequency::EveryOtherWeek => "everyOtherWeek"@,
            ScheduleFrequency::TwiceAMonth => "twiceAMonth"@,
            ScheduleFrequency::Every4Weeks => "every4Weeks"@,
            ScheduleFrequency::Monthly => "monthly"@,
            ScheduleFrequency::EveryOtherMonth => "everyOtherMonth"@,
            ScheduleFrequency::Every3Months => "every3Months"@,
            ScheduleFrequency::Every4Months => "every4Months"@,
            ScheduleFrequency::TwiceAYear => "twiceAYear"@,
            ScheduleFrequency::Yearly => "yearly"@,
            ScheduleFrequency::EveryOtherYear => "everyOtherYear"@,
        }
    }

    /// The frequency that travels under `name`, if there is one.
    pub open spec fn named(name: Seq<char>) -> Option<ScheduleFrequency> {
        if name == "never"@ {
            Some(ScheduleFrequency::Never)
        } else if name == "daily"@ {
            Some(ScheduleFrequency::Daily)
        } else if name == "weekly"@ {
            Some(ScheduleFrequency::Weekly)
        } else if name == "everyOtherWeek"@ {
            Some(ScheduleFrequency::EveryOtherWeek)
        } else if name == "twiceAMonth"@ {
            Some(ScheduleFrequency::TwiceAMonth)
        } else if name == "every4Weeks"@ {
            Some(ScheduleFrequency::Every4Weeks)
        } else if name == "monthly"@ {
            Some(ScheduleFrequency::Monthly)
        } else if name == "everyOtherMonth"@ {
            Some(ScheduleFrequency::EveryOtherMonth)
        } else if name == "every3Months"@ {
            Some(ScheduleFrequency::Every3Months)
        } else if name == "every4Months"@ {
            Some(ScheduleFrequency::Every4Months)
        } else if name == "twiceAYear"@ {
            Some(ScheduleFrequency::TwiceAYear)
        } else if name == "yearly"@ {
            Some(ScheduleFrequency::Yearly)
        } else if name == "everyOtherYear"@ {
            Some(ScheduleFrequency::EveryOtherYear)
        } else {
            None
        }
    }

    /// The name under which the frequency travels.
    pub fn wire_name(&self) -> (name: &'static str)
        ensures
            name@ == self.wire(),
    {
        match self {
            ScheduleFrequency::Never => "never",
            ScheduleFrequency::Daily => "daily",
            ScheduleFrequency::Weekly => "weekly",
            ScheduleFrequency::EveryOtherWeek => "everyOtherWeek",
            ScheduleFrequency::TwiceAMonth => "twiceAMonth",
            ScheduleFrequency::Every4Weeks => "every4Weeks",
            ScheduleFrequency::Monthly => "monthly",
            ScheduleFrequency::EveryOtherMonth => "everyOtherMonth",
            ScheduleFrequency::Every3Months => "every3Months",
            ScheduleFrequency::Every4Months => "every4Months",
            ScheduleFrequency::TwiceAYear => "twiceAYear",
            ScheduleFrequency::Yearly => "yearly",
            ScheduleFrequency::EveryOtherYear => "everyOtherYear",
        }
    }

    /// The frequency that travels under `name`, if there is one.
    pub fn from_wire_name(name: &str) -> (value: Option<ScheduleFrequency>)
        ensures
            value == Self::named(name@),
    {
        if same(name, "never") {
            Some(ScheduleFrequency::Never)
        } else if same(name, "daily") {
            Some(ScheduleFrequency::Daily)
        } else if same(name, "weekly") {
            Some(ScheduleFrequency::Weekly)
        } else if same(name, "everyOtherWeek") {
            Some(ScheduleFrequency::EveryOtherWeek)
        } else if same(name, "twiceAMonth") {
            Some(ScheduleFrequency::TwiceAMonth)
        } else if same(name, "every4Weeks") {
            Some(ScheduleFrequency::Every4Weeks)
        } else if same(name, "monthly") {
            Some(ScheduleFrequency::Monthly)
        } else if same(name, "everyOtherMonth") {
            Some(ScheduleFrequency::EveryOtherMonth)
        } else if same(name, "every3Months") {
            Some(ScheduleFrequency::Every3Months)
        } else if same(name, "every4Months") {
            Some(ScheduleFrequency::Every4Months)
        } else if same(name, "twiceAYear") {
            Some(ScheduleFrequency::TwiceAYear)
        } else if same(name, "yearly") {
            Some(ScheduleFrequency::Yearly)
        } else if same(name, "everyOtherYear") {
            Some(ScheduleFrequency::EveryOtherYear)
        } else {
            None
        }
    }

    /// Every frequency is read back from its own name, and a name that is read
    /// as a value is the name of that value.
    pub proof fn lemma_names_round_trip(value: ScheduleFrequency, name: Seq<char>)
        ensures
            Self::named(value.wire()) == Some(value),
            Self::named(name) == Some(value) ==> name == value.wire(),
    {
        reveal_strlit("never");
        reveal_strlit("daily");
        reveal_strlit("weekly");
        reveal_strlit("everyOtherWeek");
        reveal_strlit("twiceAMonth");
        reveal_strlit("every4Weeks");
        reveal_strlit("monthly");
        reveal_strlit("everyOtherMonth");
        reveal_strlit("every3Months");
        reveal_strlit("every4Months");
        reveal_strlit("twiceAYear");
        reveal_strlit("yearly");
        reveal_strlit("everyOtherYear");
        // Names differ in their length, or in a character at some place.
        assert("never"@.len() == 5);
        assert("never"@[0] == 'n');
        assert("daily"@.len() == 5);
        assert("daily"@[0] == 'd');
        assert("weekly"@.len() == 6);
        assert("weekly"@[0] == 'w');
        assert("everyOtherWeek"@.len() == 14);
        assert("everyOtherWeek"@[10] == 'W');
        assert("twiceAMonth"@.len() == 11);
        assert("twiceAMonth"@[0] == 't');
        assert("every4Weeks"@.len() == 11);
        assert("every4Weeks"@[0] == 'e');
        assert("monthly"@.len() == 7);
        assert("everyOtherMonth"@.len() == 15);
        assert("every3Months"@.len() == 12);
        assert("every3Months"@[5] == '3');
        assert("every4Months"@.len() == 12);
        assert("every4Months"@[5] == '4');
        assert("twiceAYear"@.len() == 10);
        assert("yearly"@.len() == 6);
        assert("yearly"@[0] == 'y');
        assert("everyOtherYear"@.len() == 14);
        assert("everyOtherYear"@[10] == 'Y');
    }
}

} // verus!
