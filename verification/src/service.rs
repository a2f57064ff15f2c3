//! One request from end to end, as three decisions with the store's work in
//! between: [`accept`] turns a request into a call on the store or turns it
//! away; [`query_statement`] and [`command_statement`] say which statement the
//! call runs; [`answer_query`] and [`answer_command`] turn what the store
//! answered into the response.
//!
//! Whoever drives this runs the statement. Each call runs exactly one, and
//! nothing here asks the store anything before it: a transaction for a bucket
//! that does not exist, or a second balance, become the same insert as any
//! other, and the store's refusal, if it refuses, becomes the response.

use vstd::prelude::*;
use crate::db::{balance_from_rows, balance_of_rows, buckets_from_rows, buckets_of_rows,
    db_create_balance, db_create_bucket, db_create_transaction, db_delete_balance, db_delete_bucket,
    db_delete_transaction, db_get_balance, db_get_buckets, db_get_transactions, db_modify_balance,
    db_modify_bucket, db_modify_transaction, delete_statement, insert_balance_statement,
    insert_bucket_statement, insert_transaction_statement, outcome, select_balance_statement,
    select_buckets_statement, select_transactions_statement, transactions_from_rows,
    transactions_of_rows, update_balance_statement, update_bucket_statement,
    update_transaction_statement, written, written_of, Row, SqlValueView, Statement, StatementView,
    StoreError, DELETE_BALANCE, DELETE_BUCKET, DELETE_TRANSACTION};
use crate::decode::{create_balance_of, create_bucket_of, create_transaction_of, decode_create_balance,
    decode_create_bucket, decode_create_transaction, decode_update_balance, decode_update_bucket,
    decode_update_transaction, decoded, update_balance_of, update_bucket_of, update_transaction_of,
    DecodeError};
use crate::handlers::{create_balance, create_balance_response, create_bucket,
    create_bucket_response, create_transaction, create_transaction_response, delete_balance,
    delete_balance_response, delete_bucket, delete_bucket_response, delete_transaction,
    delete_transaction_response, get_balance, get_balance_response, get_buckets,
    get_buckets_response, get_transactions, get_transactions_response, update_balance,
    update_balance_response, update_bucket, update_bucket_response, update_transaction,
    update_transaction_response, Response, ResponseView};
use crate::json::{JsonDocument, JsonDocumentView};
use crate::models::{CreateBalance, CreateBalanceView, CreateBucket, CreateBucketView,
    CreateTransaction, UpdateBalance, UpdateBalanceView, UpdateBucket, UpdateBucketView,
    UpdateTransaction};
use crate::router::{route, route_of, Endpoint, Method, Rejection, Resource};

verus! {

/// A call on the store that returns rows.
#[derive(Clone, Copy, Debug, PartialEq, Eq, Structural)]
pub enum Query {
    Buckets,
    Transactions,
    Balance,
}

/// A call on the store that changes rows and returns none.
#[derive(Clone, Debug, PartialEq, Eq)]
pub enum Command {
    CreateBucket(CreateBucket),
    UpdateBucket(i32, UpdateBucket),
    DeleteBucket(i32),
    CreateTransaction(CreateTransaction),
    UpdateTransaction(i32, UpdateTransaction),
    DeleteTransaction(i32),
    CreateBalance(CreateBalance),
    UpdateBalance(i32, UpdateBalance),
    DeleteBalance(i32),
}

/// What a [`Command`] is in contracts.
pub enum CommandView {
    CreateBucket(CreateBucketView),
    UpdateBucket(i32, UpdateBucketView),
    DeleteBucket(i32),
    CreateTransaction(CreateTransaction),
    UpdateTransaction(i32, UpdateTransaction),
    DeleteTransaction(i32),
    CreateBalance(CreateBalanceView),
    UpdateBalance(i32, UpdateBalanceView),
    DeleteBalance(i32),
}

impl View for Command {
    type V = CommandView;

    open spec fn view(&self) -> CommandView {
        match self {
            Command::CreateBucket(payload) => CommandView::CreateBucket(payload@),
            Command::UpdateBucket(id, payload) => CommandView::UpdateBucket(*id, payload@),
            Command::DeleteBucket(id) => CommandView::DeleteBucket(*id),
            Command::CreateTransaction(payload) => CommandView::CreateTransaction(*payload),
            Command::UpdateTransaction(id, payload) => CommandView::UpdateTransaction(*id, *payload),
            Command::DeleteTransaction(id) => CommandView::DeleteTransaction(*id),
            Command::CreateBalance(payload) => CommandView::CreateBalance(payload@),
            Command::UpdateBalance(id, payload) => CommandView::UpdateBalance(*id, payload@),
            Command::DeleteBalance(id) => CommandView::DeleteBalance(*id),
        }
    }
}

/// A call on the store: what a request that was not turned away asks for.
#[derive(Clone, Debug, PartialEq, Eq)]
pub enum Call {
    Query(Query),
    Command(Command),
}

/// What a [`Call`] is in contracts.
pub enum CallView {
    Query(Query),
    Command(CommandView),
}

impl View for Call {
    type V = CallView;

    open spec fn view(&self) -> CallView {
        match self {
            Call::Query(query) => CallView::Query(*query),
            Call::Command(command) => CallView::Command(command@),
        }
    }
}

impl DeepView for Call {
    type V = CallView;

    open spec fn deep_view(&self) -> CallView {
        self@
    }
}

/// The query that lists a resource.
pub open spec fn listing(resource: Resource) -> Query {
    match resource {
        Resource::Bucket => Query::Buckets,
        Resource::Transaction => Query::Transactions,
        Resource::Balance => Query::Balance,
    }
}

/// The command that deletes the item `id` of a resource.
pub open spec fn deletion(resource: Resource, id: i32) -> CommandView {
    match resource {
        Resource::Bucket => CommandView::DeleteBucket(id),
        Resource::Transaction => CommandView::DeleteTransaction(id),
        Resource::Balance => CommandView::DeleteBalance(id),
    }
}

/// The command that creates an item of a resource from a request body.
pub open spec fn creation(resource: Resource, document: JsonDocumentView) -> Result<
    CommandView,
    DecodeError,
> {
    match resource {
        Resource::Bucket => match create_bucket_of(document) {
            Ok(payload) => Ok(CommandView::CreateBucket(payload)),
            Err(e) => Err(e),
        },
        Resource::Transaction => match create_transaction_of(document) {
            Ok(payload) => Ok(CommandView::CreateTransaction(payload)),
            Err(e) => Err(e),
        },
        Resource::Balance => match create_balance_of(document) {
            Ok(payload) => Ok(CommandView::CreateBalance(payload)),
            Err(e) => Err(e),
        },
    }
}

/// The command that updates the item `id` of a resource from a request body.
pub open spec fn modification(resource: Resource, id: i32, document: JsonDocumentView) -> Result<
    CommandView,
    DecodeError,
> {
    match resource {
        Resource::Bucket => match update_bucket_of(document) {
            Ok(payload) => Ok(CommandView::UpdateBucket(id, payload)),
            Err(e) => Err(e),
        },
        Resource::Transaction => match update_transaction_of(document) {
            Ok(payload) => Ok(CommandView::UpdateTransaction(id, payload)),
            Err(e) => Err(e),
        },
        Resource::Balance => match update_balance_of(document) {
            Ok(payload) => Ok(CommandView::UpdateBalance(id, payload)),
            Err(e) => Err(e),
        },
    }
}

/// The call that an endpoint makes, given the request body. Listing and
/// deleting take no body: whatever `document` is, it is not looked at.
pub open spec fn call_of(endpoint: Endpoint, document: JsonDocumentView) -> Result<
    CallView,
    DecodeError,
> {
    match endpoint {
        Endpoint::List(resource) => Ok(CallView::Query(listing(resource))),
        Endpoint::Delete(resource, id) => Ok(CallView::Command(deletion(resource, id))),
        Endpoint::Create(resource) => match creation(resource, document) {
            Ok(command) => Ok(CallView::Command(command)),
            Err(e) => Err(e),
        },
        Endpoint::Update(resource, id) => match modification(resource, id, document) {
            Ok(command) => Ok(CallView::Command(command)),
            Err(e) => Err(e),
        },
    }
}

/// Whether the endpoint reads the request body.
pub fn takes_body(endpoint: Endpoint) -> (takes: bool)
    ensures
        takes == (endpoint is Create || endpoint is Update),
        !takes ==> forall|a: JsonDocumentView, b: JsonDocumentView|
            call_of(endpoint, a) == call_of(endpoint, b),
{
    match endpoint {
        Endpoint::Create(_) => true,
        Endpoint::Update(_, _) => true,
        _ => false,
    }
}

fn create(resource: Resource, document: &JsonDocument) -> (result: Result<Command, DecodeError>)
    ensures
        match result {
            Ok(command) => creation(resource, document@) == Ok::<CommandView, DecodeError>(command@),
            Err(e) => creation(resource, document@) == Err::<CommandView, DecodeError>(e),
        },
{
    match resource {
        Resource::Bucket => match decode_create_bucket(document) {
            Ok(payload) => Ok(Command::CreateBucket(payload)),
            Err(error) => Err(error),
        },
        Resource::Transaction => match decode_create_transaction(document) {
            Ok(payload) => Ok(Command::CreateTransaction(payload)),
            Err(error) => Err(error),
        },
        Resource::Balance => match decode_create_balance(document) {
            Ok(payload) => Ok(Command::CreateBalance(payload)),
            Err(error) => Err(error),
        },
    }
}

fn modify(resource: Resource, id: i32, document: &JsonDocument) -> (result: Result<
    Command,
    DecodeError,
>)
    ensures
        match result {
            Ok(command) => modification(resource, id, document@) == Ok::<CommandView, DecodeError>(
                command@,
            ),
            Err(e) => modification(resource, id, document@) == Err::<CommandView, DecodeError>(e),
        },
{
    match resource {
        Resource::Bucket => match decode_update_bucket(document) {
            Ok(payload) => Ok(Command::UpdateBucket(id, payload)),
            Err(error) => Err(error),
        },
        Resource::Transaction => match decode_update_transaction(document) {
            Ok(payload) => Ok(Command::UpdateTransaction(id, payload)),
            Err(error) => Err(error),
        },
        Resource::Balance => match decode_update_balance(document) {
            Ok(payload) => Ok(Command::UpdateBalance(id, payload)),
            Err(error) => Err(error),
        },
    }
}

/// Decodes the request of an endpoint into the call it makes.
pub fn decode(endpoint: Endpoint, document: &JsonDocument) -> (result: Result<Call, DecodeError>)
    ensures
        decoded(result) == call_of(endpoint, document@),
{
    match endpoint {
        Endpoint::List(resource) => Ok(
            Call::Query(
                match resource {
                    Resource::Bucket => Query::Buckets,
                    Resource::Transaction => Query::Transactions,
                    Resource::Balance => Query::Balance,
                },
            ),
        ),
        Endpoint::Delete(resource, id) => Ok(
            Call::Command(
                match resource {
                    Resource::Bucket => Command::DeleteBucket(id),
                    Resource::Transaction => Command::DeleteTransaction(id),
                    Resource::Balance => Command::DeleteBalance(id),
                },
            ),
        ),
        Endpoint::Create(resource) => match create(resource, document) {
            Ok(command) => Ok(Call::Command(command)),
            Err(error) => Err(error),
        },
        Endpoint::Update(resource, id) => match modify(resource, id, document) {
            Ok(command) => Ok(Call::Command(command)),
            Err(error) => Err(error),
        },
    }
}

/// The call that a request makes, or why it is turned away: first the
/// routing table is asked, then the body is decoded.
pub open spec fn accepted(method: Method, path: Seq<char>, document: JsonDocumentView) -> Result<
    CallView,
    Rejection,
> {
    match route_of(method, path) {
        Err(rejection) => Err(rejection),
        Ok(endpoint) => match call_of(endpoint, document) {
            Ok(call) => Ok(call),
            Err(error) => Err(Rejection::Decode(error)),
        },
    }
}

/// Turns a request into a call on the store, or turns it away.
pub fn accept(method: Method, path: &str, document: &JsonDocument) -> (result: Result<
    Call,
    Rejection,
>)
    ensures
        match result {
            Ok(call) => accepted(method, path@, document@) == Ok::<CallView, Rejection>(call@),
            Err(rejection) => accepted(method, path@, document@) == Err::<CallView, Rejection>(
                rejection,
            ),
        },
{
    let endpoint = match route(method, path) {
        Ok(endpoint) => endpoint,
        Err(rejection) => return Err(rejection),
    };
    match decode(endpoint, document) {
        Ok(call) => Ok(call),
        Err(error) => Err(Rejection::Decode(error)),
    }
}

/// The statement that a query runs.
pub open spec fn statement_of_query(query: Query) -> StatementView {
    match query {
        Query::Buckets => select_buckets_statement(),
        Query::Transactions => select_transactions_statement(),
        Query::Balance => select_balance_statement(),
    }
}

/// The statement that `query` runs.
pub fn query_statement(query: Query) -> (statement: Statement)
    ensures
        statement@ == statement_of_query(query),
{
    match query {
        Query::Buckets => db_get_buckets(),
        Query::Transactions => db_get_transactions(),
        Query::Balance => db_get_balance(),
    }
}

/// The statement that a command runs.
pub open spec fn statement_of_command(command: CommandView) -> StatementView {
    match command {
        CommandView::CreateBucket(payload) => insert_bucket_statement(
            payload.name,
            payload.limit_amount,
            payload.current_amount,
        ),
        CommandView::UpdateBucket(id, payload) => update_bucket_statement(
            id,
            payload.name,
            payload.limit_amount,
            payload.current_amount,
        ),
        CommandView::DeleteBucket(id) => delete_statement(DELETE_BUCKET@, id),
        CommandView::CreateTransaction(payload) => insert_transaction_statement(
            payload.amount,
            payload.bucket_id,
        ),
        CommandView::UpdateTransaction(id, payload) => update_transaction_statement(
            id,
            payload.amount,
            payload.bucket_id,
        ),
        CommandView::DeleteTransaction(id) => delete_statement(DELETE_TRANSACTION@, id),
        CommandView::CreateBalance(payload) => insert_balance_statement(
            payload.amount,
            payload.account_type,
            payload.user_name,
        ),
        CommandView::UpdateBalance(id, payload) => update_balance_statement(
            id,
            payload.amount,
            payload.account_type,
            payload.user_name,
        ),
        CommandView::DeleteBalance(id) => delete_statement(DELETE_BALANCE@, id),
    }
}

/// A copy of an optional text.
fn copy_text(text: &Option<String>) -> (copy: Option<String>)
    ensures
        copy.deep_view() == text.deep_view(),
{
    match text {
        Some(text) => Some(text.clone()),
        None => None,
    }
}

/// The statement that `command` runs.
pub fn command_statement(command: &Command) -> (statement: Statement)
    ensures
        statement@ == statement_of_command(command@),
{
    match command {
        Command::CreateBucket(payload) => db_create_bucket(
            &payload.name,
            &payload.limit_amount,
            &payload.current_amount,
        ),
        Command::UpdateBucket(id, payload) => db_modify_bucket(
            id,
            copy_text(&payload.name),
            payload.limit_amount,
            payload.current_amount,
        ),
        Command::DeleteBucket(id) => db_delete_bucket(id),
        Command::CreateTransaction(payload) => db_create_transaction(
            &payload.amount,
            &payload.bucket_id,
        ),
        Command::UpdateTransaction(id, payload) => db_modify_transaction(
            id,
            payload.amount,
            payload.bucket_id,
        ),
        Command::DeleteTransaction(id) => db_delete_transaction(id),
        Command::CreateBalance(payload) => db_create_balance(
            &payload.amount,
            &payload.account_type,
            &payload.user_name,
        ),
        Command::UpdateBalance(id, payload) => db_modify_balance(
            id,
            payload.amount,
            copy_text(&payload.account_type),
            copy_text(&payload.user_name),
        ),
        Command::DeleteBalance(id) => db_delete_balance(id),
    }
}

/// The rows that the store answered, read as what `query` asked for, then
/// answered by the handler of its endpoint.
pub open spec fn response_to_query(
    query: Query,
    reply: Result<Seq<Seq<SqlValueView>>, Seq<char>>,
) -> ResponseView {
    match query {
        Query::Buckets => get_buckets_response(
            match reply {
                Ok(rows) => buckets_of_rows(rows),
                Err(e) => Err(e),
            },
        ),
        Query::Transactions => get_transactions_response(
            match reply {
                Ok(rows) => transactions_of_rows(rows),
                Err(e) => Err(e),
            },
        ),
        Query::Balance => get_balance_response(
            match reply {
                Ok(rows) => balance_of_rows(rows),
                Err(e) => Err(e),
            },
        ),
    }
}

/// Answers a query, given what the store answered to its statement: the rows,
/// or its failure.
pub fn answer_query(query: Query, reply: Result<Vec<Row>, StoreError>) -> (response: Response)
    ensures
        response@ == response_to_query(query, outcome(reply)),
{
    match query {
        Query::Buckets => get_buckets(
            match reply {
                Ok(rows) => buckets_from_rows(&rows),
                Err(error) => Err(error),
            },
        ),
        Query::Transactions => get_transactions(
            match reply {
                Ok(rows) => transactions_from_rows(&rows),
                Err(error) => Err(error),
            },
        ),
        Query::Balance => get_balance(
            match reply {
                Ok(rows) => balance_from_rows(&rows),
                Err(error) => Err(error),
            },
        ),
    }
}

/// What the store answered to a command, answered by the handler of its
/// endpoint. The number of rows that the statement changed is not looked at.
pub open spec fn response_to_command(
    command: CommandView,
    reply: Result<u64, Seq<char>>,
) -> ResponseView {
    let result = written_of(reply);
    match command {
        CommandView::CreateBucket(_) => create_bucket_response(result),
        CommandView::UpdateBucket(_, _) => update_bucket_response(result),
        CommandView::DeleteBucket(id) => delete_bucket_response(id, result),
        CommandView::CreateTransaction(_) => create_transaction_response(result),
        CommandView::UpdateTransaction(_, _) => update_transaction_response(result),
        CommandView::DeleteTransaction(id) => delete_transaction_response(id, result),
        CommandView::CreateBalance(_) => create_balance_response(result),
        CommandView::UpdateBalance(_, _) => update_balance_response(result),
        CommandView::DeleteBalance(id) => delete_balance_response(id, result),
    }
}

/// Answers a command, given what the store answered to its statement: the
/// number of rows it changed, or its failure.
pub fn answer_command(command: &Command, reply: Result<u64, StoreError>) -> (response: Response)
    ensures
        response@ == response_to_command(command@, outcome(reply)),
{
    let result = written(reply);
    match command {
        Command::CreateBucket(_) => create_bucket(result),
        Command::UpdateBucket(_, _) => update_bucket(result),
        Command::DeleteBucket(id) => delete_bucket(*id, result),
        Command::CreateTransaction(_) => create_transaction(result),
        Command::UpdateTransaction(_, _) => update_transaction(result),
        Command::DeleteTransaction(id) => delete_transaction(*id, result),
        Command::CreateBalance(_) => create_balance(result),
        Command::UpdateBalance(_, _) => update_balance(result),
        Command::DeleteBalance(id) => delete_balance(*id, result),
    }
}

} // verus!
