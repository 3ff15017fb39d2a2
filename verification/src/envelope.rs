//! The result envelope: what a reply of the service amounts to.
//!
//! A reply is a status code and a body. The body carries either the payload
//! of the operation under a `data` key or the shared failure payload under an
//! `error` key. Interpretation happens in two steps around the decoding of
//! the body, which is the caller's part: [`Reply::expects`] says which shape
//! the body has to be decoded as, and [`interpret`] turns the outcome of that
//! decoding into the one result of the call. A body that cannot be decoded as
//! the expected shape is reported as a [`ProtocolViolation`], apart from the
//! failures that the service itself reports. So is a listing that takes the
//! cursor and comes without server knowledge: see [`require_knowledge`].

use crate::models::ErrorResponse;
use vstd::prelude::*;

verus! {

/// The remote operations.
#[derive(Debug, Clone, Copy, PartialEq, Eq, Structural)]
pub enum Operation {
    GetUser,
    GetBudgets,
    GetBudget,
    GetBudgetSettings,
    GetAccountList,
    GetAccount,
    GetCategoryList,
    GetCategory,
    GetCategoryForMonth,
    GetPayeeList,
    GetPayee,
    GetPayeeLocationList,
    GetPayeeLocation,
    GetPayeeLocationsForPayee,
    GetMonthList,
    GetMonth,
    GetTransactionList,
    GetTransaction,
    GetTransactionListForAccount,
    GetTransactionListForCategory,
    GetTransactionListForPayee,
    GetScheduledTransactionList,
    GetScheduledTransaction,
}

impl Operation {
    /// The name under which diagnostics refer to the operation.
    pub open spec fn label(self) -> Seq<char> {
        match self {
            Operation::GetUser => "get_user"@,
            Operation::GetBudgets => "get_budgets"@,
            Operation::GetBudget => "get_budget"@,
            Operation::GetBudgetSettings => "get_budget_settings"@,
            Operation::GetAccountList => "get_account_list"@,
            Operation::GetAccount => "get_account"@,
            Operation::GetCategoryList => "get_category_list"@,
            Operation::GetCategory => "get_category"@,
            Operation::GetCategoryForMonth => "get_category_for_month"@,
            Operation::GetPayeeList => "get_payee_list"@,
            Operation::GetPayee => "get_payee"@,
            Operation::GetPayeeLocationList => "get_payee_location_list"@,
            Operation::GetPayeeLocation => "get_payee_location"@,
            Operation::GetPayeeLocationsForPayee => "get_payee_locations_for_payee"@,
            Operation::GetMonthList => "get_month_list"@,
            Operation::GetMonth => "get_month"@,
            Operation::GetTransactionList => "get_transaction_list"@,
            Operation::GetTransaction => "get_transaction"@,
            Operation::GetTransactionListForAccount => "get_transaction_list_for_account"@,
            Operation::GetTransactionListForCategory => "get_transaction_list_for_category"@,
            Operation::GetTransactionListForPayee => "get_transaction_list_for_payee"@,
            Operation::GetScheduledTransactionList => "get_scheduled_transaction_list"@,
            Operation::GetScheduledTransaction => "get_scheduled_transaction"@,
        }
    }

    /// Whether the operation is a listing that takes the cursor of the
    /// delta protocol.
    pub open spec fn takes_cursor(self) -> bool {
        match self {
            Operation::GetBudget
            | Operation::GetAccountList
            | Operation::GetCategoryList
            | Operation::GetPayeeList
            | Operation::GetPayeeLocationList
            | Operation::GetMonthList
            | Operation::GetTransactionList
            | Operation::GetTransactionListForAccount
            | Operation::GetTransactionListForCategory
            | Operation::GetTransactionListForPayee
            | Operation::GetScheduledTransactionList => true,
            _ => false,
        }
    }

    /// The name under which diagnostics refer to the operation.
    pub fn name(&self) -> (name: &'static str)
        ensures
            name@ == self.label(),
    {
        match self {
            Operation::GetUser => "get_user",
            Operation::GetBudgets => "get_budgets",
            Operation::GetBudget => "get_budget",
            Operation::GetBudgetSettings => "get_budget_settings",
            Operation::GetAccountList => "get_account_list",
            Operation::GetAccount => "get_account",
            Operation::GetCategoryList => "get_category_list",
            Operation::GetCategory => "get_category",
            Operation::GetCategoryForMonth => "get_category_for_month",
            Operation::GetPayeeList => "get_payee_list",
            Operation::GetPayee => "get_payee",
            Operation::GetPayeeLocationList => "get_payee_location_list",
            Operation::GetPayeeLocation => "get_payee_location",
            Operation::GetPayeeLocationsForPayee => "get_payee_locations_for_payee",
            Operation::GetMonthList => "get_month_list",
            Operation::GetMonth => "get_month",
            Operation::GetTransactionList => "get_transaction_list",
            Operation::GetTransaction => "get_transaction",
            Operation::GetTransactionListForAccount => "get_transaction_list_for_account",
            Operation::GetTransactionListForCategory => "get_transaction_list_for_category",
            Operation::GetTransactionListForPayee => "get_transaction_list_for_payee",
            Operation::GetScheduledTransactionList => "get_scheduled_transaction_list",
            Operation::GetScheduledTransaction => "get_scheduled_transaction",
        }
    }

    /// Whether the operation is a listing that takes the cursor of the
    /// delta protocol.
    pub fn accepts_cursor(&self) -> (accepts: bool)
        ensures
            accepts == self.takes_cursor(),
    {
        match self {
            Operation::GetBudget
            | Operation::GetAccountList
            | Operation::GetCategoryList
            | Operation::GetPayeeList
            | Operation::GetPayeeLocationList
            | Operation::GetMonthList
            | Operation::GetTransactionList
            | Operation::GetTransactionListForAccount
            | Operation::GetTransactionListForCategory
            | Operation::GetTransactionListForPayee
            | Operation::GetScheduledTransactionList => true,
            _ => false,
        }
    }
}

/// What the transport hands over for one call: the status code and the body
/// as it arrived.
#[derive(Debug, Clone, PartialEq, Eq)]
pub struct Reply {
    pub status: u16,
    pub body: Vec<u8>,
}

/// The shape a body has to be decoded as.
#[derive(Debug, Clone, Copy, PartialEq, Eq, Structural)]
pub enum Expect {
    /// The payload of the operation, under `data`.
    Payload,
    /// The shared failure payload, under `error`.
    Error,
}

/// What decoding a body produced.
#[derive(Debug, Clone, PartialEq, Eq)]
pub enum Decoded<T> {
    /// The body decoded as the payload of the operation.
    Payload(T),
    /// The body decoded as the failure payload.
    Error(ErrorResponse),
    /// The body did not decode; the text is the decoder's own account.
    Malformed(String),
}

/// A reply that is neither the payload of the operation nor a failure
/// payload where one was due.
#[derive(Debug, Clone, PartialEq, Eq)]
pub struct ProtocolViolation {
    pub operation: Operation,
    pub status: u16,
    pub expected: Expect,
    pub detail: String,
}

/// Why a call produced no payload.
#[derive(Debug, Clone, PartialEq, Eq)]
pub enum Failure {
    /// The service rejected the request and said why.
    Api(ErrorResponse),
    /// The reply could not be understood.
    Protocol(ProtocolViolation),
}

/// Whether a status code is in the success class, 200 to 299.
pub open spec fn success_status(code: u16) -> bool {
    200 <= code <= 299
}

/// `reqwest::StatusCode::is_success` on the status that
/// `reqwest::StatusCode::from_u16` makes of `code`. The conversion accepts
/// codes from 100 to 999, and `is_success` holds from 200 to 299; a code that
/// is no status is no success.
#[verifier::external_body]
fn status_is_success(code: u16) -> (success: bool)
    ensures
        success == success_status(code),
{
    match reqwest::StatusCode::from_u16(code) {
        Ok(status) => status.is_success(),
        Err(_) => false,
    }
}

/// Whether `byte` is white space between the tokens of a JSON text.
pub open spec fn is_space(byte: u8) -> bool {
    byte == 0x20 || byte == 0x09 || byte == 0x0a || byte == 0x0d
}

/// The first position at or after `from` that holds no white space, or the
/// length of `body` where there is none.
pub open spec fn skip_spaces(body: Seq<u8>, from: int) -> int
    decreases body.len() - from,
{
    if 0 <= from < body.len() && is_space(body[from]) {
        skip_spaces(body, from + 1)
    } else {
        from
    }
}

/// The bytes of `"error"`, quotes included.
pub open spec fn error_key() -> Seq<u8> {
    seq![0x22u8, 0x65u8, 0x72u8, 0x72u8, 0x6fu8, 0x72u8, 0x22u8]
}

/// Whether `body` opens as a JSON object whose first key is `error`: white
/// space, an opening brace, white space, then the key in quotes.
pub open spec fn error_framed(body: Seq<u8>) -> bool {
    let open = skip_spaces(body, 0);
    let key = skip_spaces(body, open + 1);
    &&& open < body.len()
    &&& body[open] == 0x7b
    &&& key + 7 <= body.len()
    &&& body.subrange(key, key + 7) == error_key()
}

fn skip_spaces_from(body: &Vec<u8>, from: usize) -> (at: usize)
    requires
        from <= body.len(),
    ensures
        at == skip_spaces(body@, from as int),
        from <= at <= body.len(),
{
    let mut at = from;
    while at < body.len() && (body[at] == 0x20 || body[at] == 0x09 || body[at] == 0x0a || body[at]
        == 0x0d)
        invariant
            from <= at <= body.len(),
            skip_spaces(body@, from as int) == skip_spaces(body@, at as int),
        decreases body.len() - at,
    {
        at += 1;
    }
    at
}

/// Whether `body` opens as a JSON object whose first key is `error`.
pub fn is_error_framed(body: &Vec<u8>) -> (framed: bool)
    ensures
        framed == error_framed(body@),
{
    let open = skip_spaces_from(body, 0);
    if open >= body.len() || body[open] != 0x7b {
        return false;
    }
    let key = skip_spaces_from(body, open + 1);
    if body.len() - key < 7 {
        return false;
    }
    let framed = body[key] == 0x22 && body[key + 1] == 0x65 && body[key + 2] == 0x72 && body[key
        + 3] == 0x72 && body[key + 4] == 0x6f && body[key + 5] == 0x72 && body[key + 6] == 0x22;
    proof {
        let window = body@.subrange(key as int, key + 7);
        if framed {
            assert(window =~= error_key());
        } else {
            assert(window[0] == body@[key as int]);
            assert(window[1] == body@[key + 1]);
            assert(window[2] == body@[key + 2]);
            assert(window[3] == body@[key + 3]);
            assert(window[4] == body@[key + 4]);
            assert(window[5] == body@[key + 5]);
            assert(window[6] == body@[key + 6]);
        }
    }
    framed
}

impl Reply {
    /// The shape the body has to be decoded as: the payload of the operation
    /// on a success status, unless the body opens with the key `error`; the
    /// failure payload otherwise.
    pub open spec fn expected(self) -> Expect {
        if success_status(self.status) && !error_framed(self.body@) {
            Expect::Payload
        } else {
            Expect::Error
        }
    }

    /// The shape the body has to be decoded as.
    pub fn expects(&self) -> (shape: Expect)
        ensures
            shape == self.expected(),
    {
        if status_is_success(self.status) && !is_error_framed(&self.body) {
            Expect::Payload
        } else {
            Expect::Error
        }
    }
}

/// The text a violation carries where the decoder produced a value of the
/// shape that was not asked for.
pub open spec fn unexpected_shape() -> Seq<char> {
    "the decoded value is not of the expected shape"@
}

/// The detail of the violation that a decoding outcome leads to.
pub open spec fn violation_detail<T>(decoded: Decoded<T>) -> Seq<char> {
    match decoded {
        Decoded::Malformed(text) => text@,
        _ => unexpected_shape(),
    }
}

/// Whether `result` is what the reply `reply` to `operation` amounts to,
/// given that decoding its body as `reply.expected()` produced `decoded`.
///
/// A payload is the result exactly when a payload was expected and decoded.
/// A failure payload that was expected and decoded is handed on intact.
/// Everything else is a protocol violation that keeps the operation, the
/// status, the expected shape and the decoder's account.
pub open spec fn interpreted<T>(
    operation: Operation,
    reply: Reply,
    decoded: Decoded<T>,
    result: Result<T, Failure>,
) -> bool {
    match (reply.expected(), decoded) {
        (Expect::Payload, Decoded::Payload(payload)) => result == Ok::<T, Failure>(payload),
        (Expect::Error, Decoded::Error(error)) => result == Err::<T, Failure>(
            Failure::Api(error),
        ),
        _ => {
            &&& result matches Err(Failure::Protocol(violation))
            &&& violation.operation == operation
            &&& violation.status == reply.status
            &&& violation.expected == reply.expected()
            &&& violation.detail@ == violation_detail(decoded)
        },
    }
}

/// The one result of a call: the payload, the failure the service reported,
/// or a protocol violation.
pub fn interpret<T>(operation: Operation, reply: &Reply, decoded: Decoded<T>) -> (result: Result<
    T,
    Failure,
>)
    ensures
        interpreted(operation, *reply, decoded, result),
        result is Ok <==> reply.expected() == Expect::Payload && decoded is Payload,
        error_framed(reply.body@) ==> result is Err,
        !success_status(reply.status) ==> result is Err,
{
    let expected = reply.expects();
    match decoded {
        Decoded::Payload(payload) => {
            if expected == Expect::Payload {
                Ok(payload)
            } else {
                Err(
                    Failure::Protocol(
                        ProtocolViolation {
                            operation,
                            status: reply.status,
                            expected,
                            detail: String::from_str(
                                "the decoded value is not of the expected shape",
                            ),
                        },
                    ),
                )
            }
        },
        Decoded::Error(error) => {
            if expected == Expect::Error {
                Err(Failure::Api(error))
            } else {
                Err(
                    Failure::Protocol(
                        ProtocolViolation {
                            operation,
                            status: reply.status,
                            expected,
                            detail: String::from_str(
                                "the decoded value is not of the expected shape",
                            ),
                        },
                    ),
                )
            }
        },
        Decoded::Malformed(detail) => Err(
            Failure::Protocol(
                ProtocolViolation { operation, status: reply.status, expected, detail },
            ),
        ),
    }
}

/// The text a violation carries where a listing that takes the cursor came
/// without server knowledge.
pub open spec fn knowledge_missing() -> Seq<char> {
    "the listing carries no server knowledge"@
}

/// Whether `result` is what the server knowledge `knowledge` of the payload
/// of `operation` amounts to. A listing that takes the cursor has to carry
/// server knowledge: without it the reply is a protocol violation, and
/// nothing stands in for the missing cursor. Any other payload may come with
/// or without.
pub open spec fn knowledge_required(
    operation: Operation,
    reply: Reply,
    knowledge: Option<i64>,
    result: Result<Option<i64>, Failure>,
) -> bool {
    if operation.takes_cursor() && knowledge is None {
        &&& result matches Err(Failure::Protocol(violation))
        &&& violation.operation == operation
        &&& violation.status == reply.status
        &&& violation.expected == Expect::Payload
        &&& violation.detail@ == knowledge_missing()
    } else {
        result == Ok::<Option<i64>, Failure>(knowledge)
    }
}

/// The server knowledge of the payload of `operation`, or the protocol
/// violation where a listing that takes the cursor carries none.
pub fn require_knowledge(operation: Operation, reply: &Reply, knowledge: Option<i64>) -> (result:
    Result<Option<i64>, Failure>)
    ensures
        knowledge_required(operation, *reply, knowledge, result),
        result is Ok <==> !operation.takes_cursor() || knowledge is Some,
        operation.takes_cursor() ==> (result matches Ok(found) ==> found is Some),
{
    if operation.accepts_cursor() && knowledge.is_none() {
        Err(
            Failure::Protocol(
                ProtocolViolation {
                    operation,
                    status: reply.status,
                    expected: Expect::Payload,
                    detail: String::from_str("the listing carries no server knowledge"),
                },
            ),
        )
    } else {
        Ok(knowledge)
    }
}

impl ProtocolViolation {
    /// The diagnostic line of the violation.
    pub open spec fn message_text(self) -> Seq<char> {
        (match self.expected {
            Expect::Payload => "Returned data model is invalid for `"@,
            Expect::Error => "Returned error model is invalid for `"@,
        }) + self.operation.label() + "`. Error: "@ + self.detail@
    }

    /// The diagnostic line of the violation: which model was invalid, for
    /// which operation, and the decoder's account.
    pub fn message(&self) -> (text: String)
        ensures
            text@ == self.message_text(),
    {
        let mut text = match self.expected {
            Expect::Payload => String::from_str("Returned data model is invalid for `"),
            Expect::Error => String::from_str("Returned error model is invalid for `"),
        };
        text.append(self.operation.name());
        text.append("`. Error: ");
        text.append(self.detail.as_str());
        text
    }
}

/// Interpreting the same reply and the same decoded payload again gives the
/// same payload: the result depends on nothing but the arguments.
pub proof fn lemma_interpretation_repeatable<T>(
    operation: Operation,
    reply: Reply,
    decoded: Decoded<T>,
    first: Result<T, Failure>,
    second: Result<T, Failure>,
)
    requires
        interpreted(operation, reply, decoded, first),
        interpreted(operation, reply, decoded, second),
        first is Ok || first matches Err(Failure::Api(_)),
    ensures
        first == second,
{
}

/// A body that opens with the key `error` never yields a payload, whatever
/// the status code and whatever the decoder made of it.
pub proof fn lemma_error_body_is_never_success<T>(
    operation: Operation,
    reply: Reply,
    decoded: Decoded<T>,
    result: Result<T, Failure>,
)
    requires
        error_framed(reply.body@),
        interpreted(operation, reply, decoded, result),
    ensures
        result is Err,
        reply.expected() == Expect::Error,
{
}

/// A call has one outcome: a result is never both a payload and a failure,
/// and a failure is either the service's own or a violation.
pub proof fn lemma_outcomes_exclusive<T>(
    operation: Operation,
    reply: Reply,
    decoded: Decoded<T>,
    result: Result<T, Failure>,
)
    requires
        interpreted(operation, reply, decoded, result),
    ensures
        result is Ok <==> (success_status(reply.status) && !error_framed(reply.body@)
            && decoded is Payload),
        result matches Err(Failure::Api(_)) <==> (reply.expected() == Expect::Error
            && decoded is Error),
        result matches Err(Failure::Protocol(_)) <==> !(result is Ok) && !(result matches Err(
            Failure::Api(_),
        )),
{
}

} // verus!
