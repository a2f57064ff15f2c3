//! The handlers: what the service answers once the store has done its part.
//!
//! Each endpoint has one function here, which turns the result of its store
//! operation into a response. A failure of the store is always a 500 whose
//! message is a context, a colon and the store's own message; nothing is
//! retried and no failure is told apart from another.

use vstd::prelude::*;
use vstd::string::StringExecFns;
use crate::db::{outcome, StoreError};
use crate::decode::{field_key, key_of, DecodeError};
use crate::models::{Balance, BalanceView, Bucket, BucketView, Transaction};
use crate::router::Rejection;
use crate::text::{decimal, decimal_text};

verus! {

/// The status of a request that was read or deleted.
pub const OK: u16 = 200;

/// The status of a request that created or updated.
pub const CREATED: u16 = 201;

/// The status of a request with an id or a body that cannot be read at all.
pub const BAD_REQUEST: u16 = 400;

/// The status of a request for a path that the routing table does not have.
pub const NOT_FOUND: u16 = 404;

/// The status of a request with a method that its path does not take.
pub const METHOD_NOT_ALLOWED: u16 = 405;

/// The status of a request whose body does not hold what the endpoint needs.
pub const UNPROCESSABLE_ENTITY: u16 = 422;

/// The status of a request on which the store failed.
pub const INTERNAL_SERVER_ERROR: u16 = 500;

/// The body of a response. Every body but `Empty` is sent as JSON.
#[derive(Clone, Debug, PartialEq, Eq)]
pub enum Body {
    /// No body at all.
    Empty,
    /// The JSON value `null`.
    Null,
    /// The object `{"status": .., "message": ..}`.
    Envelope { status: String, message: String },
    /// An array of buckets.
    Buckets(Vec<Bucket>),
    /// An array of transactions.
    Transactions(Vec<Transaction>),
    /// One balance.
    Balance(Balance),
}

/// What a [`Body`] is in contracts.
pub enum BodyView {
    Empty,
    Null,
    Envelope { status: Seq<char>, message: Seq<char> },
    Buckets(Seq<BucketView>),
    Transactions(Seq<Transaction>),
    Balance(BalanceView),
}

impl View for Body {
    type V = BodyView;

    open spec fn view(&self) -> BodyView {
        match self {
            Body::Empty => BodyView::Empty,
            Body::Null => BodyView::Null,
            Body::Envelope { status, message } => BodyView::Envelope {
                status: status@,
                message: message@,
            },
            Body::Buckets(buckets) => BodyView::Buckets(buckets.deep_view()),
            Body::Transactions(transactions) => BodyView::Transactions(transactions.deep_view()),
            Body::Balance(balance) => BodyView::Balance(balance@),
        }
    }
}

/// An HTTP response: the status code and the body.
#[derive(Clone, Debug, PartialEq, Eq)]
pub struct Response {
    pub status: u16,
    pub body: Body,
}

/// What a [`Response`] is in contracts.
pub struct ResponseView {
    pub status: u16,
    pub body: BodyView,
}

impl View for Response {
    type V = ResponseView;

    open spec fn view(&self) -> ResponseView {
        ResponseView { status: self.status, body: self.body@ }
    }
}

/// The response that reports success in an envelope.
pub open spec fn success(status: u16, message: Seq<char>) -> ResponseView {
    ResponseView { status, body: BodyView::Envelope { status: "success"@, message } }
}

/// The response to a failure of the store: a 500 whose message is the
/// context, a colon and a space, and the store's message.
pub open spec fn failure(context: Seq<char>, error: Seq<char>) -> ResponseView {
    ResponseView {
        status: INTERNAL_SERVER_ERROR,
        body: BodyView::Envelope { status: "error"@, message: context + ": "@ + error },
    }
}

fn succeed(status: u16, message: String) -> (response: Response)
    ensures
        response@ == success(status, message@),
{
    Response { status, body: Body::Envelope { status: "success".to_owned(), message } }
}

fn fail(context: String, error: StoreError) -> (response: Response)
    ensures
        response@ == failure(context@, error@),
{
    let mut message = context;
    message.append(": ");
    message.append(error.message.as_str());
    Response {
        status: INTERNAL_SERVER_ERROR,
        body: Body::Envelope { status: "error".to_owned(), message },
    }
}

/// What `GET /buckets` answers: the buckets with 200.
pub open spec fn get_buckets_response(result: Result<Seq<BucketView>, Seq<char>>) -> ResponseView {
    match result {
        Ok(buckets) => ResponseView { status: OK, body: BodyView::Buckets(buckets) },
        Err(e) => failure("Database error"@, e),
    }
}

/// Answers `GET /buckets`.
pub fn get_buckets(result: Result<Vec<Bucket>, StoreError>) -> (response: Response)
    ensures
        response@ == get_buckets_response(outcome(result)),
{
    match result {
        Ok(buckets) => Response { status: OK, body: Body::Buckets(buckets) },
        Err(error) => fail("Database error".to_owned(), error),
    }
}

/// What `POST /buckets` answers: 201 and a message, not the created bucket.
pub open spec fn create_bucket_response(result: Result<(), Seq<char>>) -> ResponseView {
    match result {
        Ok(_) => success(CREATED, "Bucket created successfully"@),
        Err(e) => failure("Database error"@, e),
    }
}

/// Answers `POST /buckets`.
pub fn create_bucket(result: Result<(), StoreError>) -> (response: Response)
    ensures
        response@ == create_bucket_response(outcome(result)),
{
    match result {
        Ok(_) => succeed(CREATED, "Bucket created successfully".to_owned()),
        Err(error) => fail("Database error".to_owned(), error),
    }
}

/// What `PUT /buckets/{id}` answers: 201 and what the store reported, which
/// is nothing, so the body is `null`.
pub open spec fn update_bucket_response(result: Result<(), Seq<char>>) -> ResponseView {
    match result {
        Ok(_) => ResponseView { status: CREATED, body: BodyView::Null },
        Err(e) => failure("Error updating bucket"@, e),
    }
}

/// Answers `PUT /buckets/{id}`.
pub fn update_bucket(result: Result<(), StoreError>) -> (response: Response)
    ensures
        response@ == update_bucket_response(outcome(result)),
{
    match result {
        Ok(_) => Response { status: CREATED, body: Body::Null },
        Err(error) => fail("Error updating bucket".to_owned(), error),
    }
}

/// What `DELETE /buckets/{id}` answers: 200 and a message that names the id,
/// whether or not a bucket with that id existed.
pub open spec fn delete_bucket_response(id: i32, result: Result<(), Seq<char>>) -> ResponseView {
    match result {
        Ok(_) => success(
            OK,
            "Bucket with id "@ + decimal_text(id as int) + " deleted successfully"@,
        ),
        Err(e) => failure("Error trying to delete bucket with id "@ + decimal_text(id as int), e),
    }
}

/// Appends the decimal form of `id` to `prefix`.
fn with_id(prefix: &str, id: i32) -> (text: String)
    ensures
        text@ == prefix@ + decimal_text(id as int),
{
    let mut text = prefix.to_owned();
    let digits = decimal(id);
    text.append(digits.as_str());
    text
}

/// Answers `DELETE /buckets/{id}`.
pub fn delete_bucket(id: i32, result: Result<(), StoreError>) -> (response: Response)
    ensures
        response@ == delete_bucket_response(id, outcome(result)),
{
    match result {
        Ok(_) => {
            let mut message = with_id("Bucket with id ", id);
            message.append(" deleted successfully");
            succeed(OK, message)
        },
        Err(error) => fail(with_id("Error trying to delete bucket with id ", id), error),
    }
}

/// What `GET /transactions` answers: the transactions with 200.
pub open spec fn get_transactions_response(
    result: Result<Seq<Transaction>, Seq<char>>,
) -> ResponseView {
    match result {
        Ok(transactions) => ResponseView { status: OK, body: BodyView::Transactions(transactions) },
        Err(e) => failure("Database error"@, e),
    }
}

/// Answers `GET /transactions`.
pub fn get_transactions(result: Result<Vec<Transaction>, StoreError>) -> (response: Response)
    ensures
        response@ == get_transactions_response(outcome(result)),
{
    match result {
        Ok(transactions) => Response { status: OK, body: Body::Transactions(transactions) },
        Err(error) => fail("Database error".to_owned(), error),
    }
}

/// What `POST /transactions` answers: 201 and a message. The message is the
/// one that creating a bucket answers with, word for word. A bucket id that
/// no bucket has is the store's to refuse, and comes back as its failure.
pub open spec fn create_transaction_response(result: Result<(), Seq<char>>) -> ResponseView {
    match result {
        Ok(_) => success(CREATED, "Bucket created successfully"@),
        Err(e) => failure("Database error"@, e),
    }
}

/// Answers `POST /transactions`.
pub fn create_transaction(result: Result<(), StoreError>) -> (response: Response)
    ensures
        response@ == create_transaction_response(outcome(result)),
{
    match result {
        Ok(_) => succeed(CREATED, "Bucket created successfully".to_owned()),
        Err(error) => fail("Database error".to_owned(), error),
    }
}

/// What `PUT /transactions/{id}` answers: 201 and `null`.
pub open spec fn update_transaction_response(result: Result<(), Seq<char>>) -> ResponseView {
    match result {
        Ok(_) => ResponseView { status: CREATED, body: BodyView::Null },
        Err(e) => failure("Error updating transaction"@, e),
    }
}

/// Answers `PUT /transactions/{id}`.
pub fn update_transaction(result: Result<(), StoreError>) -> (response: Response)
    ensures
        response@ == update_transaction_response(outcome(result)),
{
    match result {
        Ok(_) => Response { status: CREATED, body: Body::Null },
        Err(error) => fail("Error updating transaction".to_owned(), error),
    }
}

/// What `DELETE /transactions/{id}` answers: 200 and a message that names the
/// id, whether or not a transaction with that id existed.
pub open spec fn delete_transaction_response(
    id: i32,
    result: Result<(), Seq<char>>,
) -> ResponseView {
    match result {
        Ok(_) => success(
            OK,
            "Transaction with id "@ + decimal_text(id as int) + " deleted successfully"@,
        ),
        Err(e) => failure(
            "Error trying to delete transaction with id "@ + decimal_text(id as int),
            e,
        ),
    }
}

/// Answers `DELETE /transactions/{id}`.
pub fn delete_transaction(id: i32, result: Result<(), StoreError>) -> (response: Response)
    ensures
        response@ == delete_transaction_response(id, outcome(result)),
{
    match result {
        Ok(_) => {
            let mut message = with_id("Transaction with id ", id);
            message.append(" deleted successfully");
            succeed(OK, message)
        },
        Err(error) => fail(with_id("Error trying to delete transaction with id ", id), error),
    }
}

/// What `GET /balance` answers: the one balance with 200.
pub open spec fn get_balance_response(result: Result<BalanceView, Seq<char>>) -> ResponseView {
    match result {
        Ok(balance) => ResponseView { status: OK, body: BodyView::Balance(balance) },
        Err(e) => failure("Database error"@, e),
    }
}

/// Answers `GET /balance`.
pub fn get_balance(result: Result<Balance, StoreError>) -> (response: Response)
    ensures
        response@ == get_balance_response(outcome(result)),
{
    match result {
        Ok(balance) => Response { status: OK, body: Body::Balance(balance) },
        Err(error) => fail("Database error".to_owned(), error),
    }
}

/// What `POST /balance` answers: 201 and a message.
pub open spec fn create_balance_response(result: Result<(), Seq<char>>) -> ResponseView {
    match result {
        Ok(_) => success(CREATED, "Balance initialized successfully"@),
        Err(e) => failure("Database error"@, e),
    }
}

/// Answers `POST /balance`.
pub fn create_balance(result: Result<(), StoreError>) -> (response: Response)
    ensures
        response@ == create_balance_response(outcome(result)),
{
    match result {
        Ok(_) => succeed(CREATED, "Balance initialized successfully".to_owned()),
        Err(error) => fail("Database error".to_owned(), error),
    }
}

/// What `PUT /balance/{id}` answers: 201 and `null`. The context of a
/// failure is the one that updating a transaction fails with, word for word.
pub open spec fn update_balance_response(result: Result<(), Seq<char>>) -> ResponseView {
    match result {
        Ok(_) => ResponseView { status: CREATED, body: BodyView::Null },
        Err(e) => failure("Error updating transaction"@, e),
    }
}

/// Answers `PUT /balance/{id}`.
pub fn update_balance(result: Result<(), StoreError>) -> (response: Response)
    ensures
        response@ == update_balance_response(outcome(result)),
{
    match result {
        Ok(_) => Response { status: CREATED, body: Body::Null },
        Err(error) => fail("Error updating transaction".to_owned(), error),
    }
}

/// What `DELETE /balance/{id}` answers: 200 and a message that names the id,
/// whether or not a balance with that id existed.
pub open spec fn delete_balance_response(id: i32, result: Result<(), Seq<char>>) -> ResponseView {
    match result {
        Ok(_) => success(OK, "Balance successfully cleared: "@ + decimal_text(id as int)),
        Err(e) => failure("Error trying to delete balance with id "@ + decimal_text(id as int), e),
    }
}

/// Answers `DELETE /balance/{id}`.
pub fn delete_balance(id: i32, result: Result<(), StoreError>) -> (response: Response)
    ensures
        response@ == delete_balance_response(id, outcome(result)),
{
    match result {
        Ok(_) => succeed(OK, with_id("Balance successfully cleared: ", id)),
        Err(error) => fail(with_id("Error trying to delete balance with id ", id), error),
    }
}

/// The response that reports, in an envelope, why a request was turned away.
pub open spec fn refusal(status: u16, message: Seq<char>) -> ResponseView {
    ResponseView { status, body: BodyView::Envelope { status: "error"@, message } }
}

/// What a request that is turned away is answered: 404 and 405 without a
/// body for a path or a method that the routing table does not have; 400 for
/// an id or a body that cannot be read at all; 422 for a body that can be
/// read and does not hold what the endpoint needs.
pub open spec fn rejection_response(rejection: Rejection) -> ResponseView {
    match rejection {
        Rejection::NotFound => ResponseView { status: NOT_FOUND, body: BodyView::Empty },
        Rejection::MethodNotAllowed => ResponseView {
            status: METHOD_NOT_ALLOWED,
            body: BodyView::Empty,
        },
        Rejection::Decode(DecodeError::InvalidId) => refusal(BAD_REQUEST, "Invalid id in path"@),
        Rejection::Decode(DecodeError::MalformedBody) => refusal(
            BAD_REQUEST,
            "Request body is not valid JSON"@,
        ),
        Rejection::Decode(DecodeError::NotAnObject) => refusal(
            UNPROCESSABLE_ENTITY,
            "Request body is not a JSON object"@,
        ),
        Rejection::Decode(DecodeError::MissingField(field)) => refusal(
            UNPROCESSABLE_ENTITY,
            "Missing field: "@ + field_key(field),
        ),
        Rejection::Decode(DecodeError::InvalidField(field)) => refusal(
            UNPROCESSABLE_ENTITY,
            "Invalid value for field: "@ + field_key(field),
        ),
    }
}

fn refuse(status: u16, message: String) -> (response: Response)
    ensures
        response@ == refusal(status, message@),
{
    Response { status, body: Body::Envelope { status: "error".to_owned(), message } }
}

/// Answers a request that is turned away.
pub fn reject(rejection: Rejection) -> (response: Response)
    ensures
        response@ == rejection_response(rejection),
{
    match rejection {
        Rejection::NotFound => Response { status: NOT_FOUND, body: Body::Empty },
        Rejection::MethodNotAllowed => Response { status: METHOD_NOT_ALLOWED, body: Body::Empty },
        Rejection::Decode(DecodeError::InvalidId) => refuse(
            BAD_REQUEST,
            "Invalid id in path".to_owned(),
        ),
        Rejection::Decode(DecodeError::MalformedBody) => refuse(
            BAD_REQUEST,
            "Request body is not valid JSON".to_owned(),
        ),
        Rejection::Decode(DecodeError::NotAnObject) => refuse(
            UNPROCESSABLE_ENTITY,
            "Request body is not a JSON object".to_owned(),
        ),
        Rejection::Decode(DecodeError::MissingField(field)) => {
            let mut message = "Missing field: ".to_owned();
            message.append(key_of(field));
            refuse(UNPROCESSABLE_ENTITY, message)
        },
        Rejection::Decode(DecodeError::InvalidField(field)) => {
            let mut message = "Invalid value for field: ".to_owned();
            message.append(key_of(field));
            refuse(UNPROCESSABLE_ENTITY, message)
        },
    }
}

} // verus!
