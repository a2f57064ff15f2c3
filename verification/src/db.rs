//! The store: every operation on the backend as one SQL statement, and what
//! the backend answers read back into entities.
//!
//! Nothing here talks to a backend. A function named after an operation builds
//! the statement that performs it; whoever holds the connection runs the
//! statement and hands the answer to the reader that belongs to it.
//!
//! An update writes every settable column. A field that the caller left out is
//! bound as NULL: it overwrites what the row held, it does not keep it.

use chrono::NaiveDateTime;
use vstd::prelude::*;
use vstd::string::StringExecFns;
use crate::models::{Amount, Balance, BalanceView, Bucket, BucketView, Transaction};

verus! {

/// The type of a column or of a bound value.
#[derive(Clone, Copy, Debug, PartialEq, Eq, Structural)]
pub enum SqlType {
    Int,
    Double,
    Text,
    Timestamp,
}

/// A value bound to a statement or held by a column of a row. `None` is the
/// NULL of that type.
#[derive(Clone, Debug, PartialEq, Eq)]
pub enum SqlValue {
    Int(Option<i32>),
    Double(Option<Amount>),
    Text(Option<String>),
    Timestamp(Option<NaiveDateTime>),
}

/// What a [`SqlValue`] is in contracts.
pub enum SqlValueView {
    Int(Option<i32>),
    Double(Option<Amount>),
    Text(Option<Seq<char>>),
    Timestamp(Option<NaiveDateTime>),
}

impl View for SqlValue {
    type V = SqlValueView;

    open spec fn view(&self) -> SqlValueView {
        match self {
            SqlValue::Int(v) => SqlValueView::Int(*v),
            SqlValue::Double(v) => SqlValueView::Double(*v),
            SqlValue::Text(v) => SqlValueView::Text(v.deep_view()),
            SqlValue::Timestamp(v) => SqlValueView::Timestamp(*v),
        }
    }
}

impl DeepView for SqlValue {
    type V = SqlValueView;

    open spec fn deep_view(&self) -> SqlValueView {
        self@
    }
}

/// Whether `value` is the NULL of its type.
pub open spec fn is_null(value: SqlValueView) -> bool {
    match value {
        SqlValueView::Int(v) => v is None,
        SqlValueView::Double(v) => v is None,
        SqlValueView::Text(v) => v is None,
        SqlValueView::Timestamp(v) => v is None,
    }
}

/// One row of an answer: the values of its columns, in the order in which the
/// statement selects them.
pub type Row = Vec<SqlValue>;

/// One SQL statement: its text with `$1`, `$2`, ... where values go, the
/// values in that order, and the types of the columns of the rows it returns
/// (none for a statement that returns no rows).
#[derive(Clone, Debug, PartialEq, Eq)]
pub struct Statement {
    pub sql: String,
    pub params: Vec<SqlValue>,
    pub columns: Vec<SqlType>,
}

/// What a [`Statement`] is in contracts.
pub struct StatementView {
    pub sql: Seq<char>,
    pub params: Seq<SqlValueView>,
    pub columns: Seq<SqlType>,
}

impl View for Statement {
    type V = StatementView;

    open spec fn view(&self) -> StatementView {
        StatementView {
            sql: self.sql@,
            params: self.params.deep_view(),
            columns: self.columns@,
        }
    }
}

/// A failure of the backend, or of reading its answer: one opaque error that
/// carries the message.
#[derive(Clone, Debug, PartialEq, Eq)]
pub struct StoreError {
    pub message: String,
}

impl View for StoreError {
    type V = Seq<char>;

    open spec fn view(&self) -> Seq<char> {
        self.message@
    }
}

/// The message of the error for a statement that the backend did not answer
/// before its deadline.
pub const STORE_TIMED_OUT: &'static str = "the store did not answer in time";

/// The error for a statement that the backend did not answer before its
/// deadline. It is a failure of the store like any other.
pub fn timed_out() -> (error: StoreError)
    ensures
        error@ == STORE_TIMED_OUT@,
{
    StoreError { message: STORE_TIMED_OUT.to_owned() }
}

/// What a result of the store is in contracts: the view of the value, or the
/// message of the error.
pub open spec fn outcome<T: DeepView>(result: Result<T, StoreError>) -> Result<T::V, Seq<char>> {
    match result {
        Ok(value) => Ok(value.deep_view()),
        Err(error) => Err(error@),
    }
}

/// The text of the statement that lists the buckets.
pub const SELECT_BUCKETS: &'static str =
    "SELECT id, name, limit_amount, current_amount, created_at, updated_at FROM bucket";

/// The text of the statement that inserts a bucket.
pub const INSERT_BUCKET: &'static str =
    "INSERT INTO bucket (name, limit_amount, current_amount) VALUES ($1, $2, $3)";

/// The text of the statement that overwrites a bucket.
pub const UPDATE_BUCKET: &'static str =
    "UPDATE bucket SET name = $1, limit_amount = $2, current_amount = $3 WHERE id = $4";

/// The text of the statement that deletes a bucket.
pub const DELETE_BUCKET: &'static str = "DELETE FROM bucket WHERE id = $1";

/// The text of the statement that lists the transactions.
pub const SELECT_TRANSACTIONS: &'static str = "SELECT id, amount, date, bucket_id FROM transaction";

/// The text of the statement that inserts a transaction.
pub const INSERT_TRANSACTION: &'static str =
    "INSERT INTO transaction (amount, bucket_id) VALUES ($1, $2)";

/// The text of the statement that overwrites a transaction.
pub const UPDATE_TRANSACTION: &'static str =
    "UPDATE transaction SET amount = $1, bucket_id = $2 WHERE id = $3";

/// The text of the statement that deletes a transaction.
pub const DELETE_TRANSACTION: &'static str = "DELETE FROM transaction WHERE id = $1";

/// The text of the statement that reads the balance.
pub const SELECT_BALANCE: &'static str = "SELECT id, amount, account_type, user_name FROM balance";

/// The text of the statement that inserts a balance.
pub const INSERT_BALANCE: &'static str =
    "INSERT INTO balance (amount, account_type, user_name) VALUES ($1, $2, $3)";

/// The text of the statement that overwrites a balance.
pub const UPDATE_BALANCE: &'static str =
    "UPDATE balance SET amount = $1, account_type = $2, user_name = $3 WHERE id = $4";

/// The text of the statement that deletes a balance.
pub const DELETE_BALANCE: &'static str = "DELETE FROM balance WHERE id = $1";

/// The message of the error for a balance query that found no row.
pub const NO_BALANCE_ROW: &'static str =
    "no rows returned by a query that expected to return exactly one row";

/// The message of the error for a balance query that found several rows.
pub const SEVERAL_BALANCE_ROWS: &'static str =
    "more than one row returned by a query that expected to return exactly one row";

/// The statement that lists every bucket.
pub open spec fn select_buckets_statement() -> StatementView {
    StatementView {
        sql: SELECT_BUCKETS@,
        params: Seq::empty(),
        columns: seq![
            SqlType::Int,
            SqlType::Text,
            SqlType::Double,
            SqlType::Double,
            SqlType::Timestamp,
            SqlType::Timestamp,
        ],
    }
}

/// Lists every bucket, in whatever order the backend returns them.
pub fn db_get_buckets() -> (statement: Statement)
    ensures
        statement@ == select_buckets_statement(),
{
    let mut columns: Vec<SqlType> = Vec::new();
    columns.push(SqlType::Int);
    columns.push(SqlType::Text);
    columns.push(SqlType::Double);
    columns.push(SqlType::Double);
    columns.push(SqlType::Timestamp);
    columns.push(SqlType::Timestamp);
    let statement = Statement { sql: SELECT_BUCKETS.to_owned(), params: Vec::new(), columns };
    assert(statement@.params =~= Seq::empty());
    assert(statement@.columns =~= select_buckets_statement().columns);
    statement
}

/// The message for a row that is too short to hold the column.
pub open spec fn missing_column(column: Seq<char>) -> Seq<char> {
    "missing column "@ + column
}

/// The message for a column that holds NULL where a value is needed.
pub open spec fn null_column(column: Seq<char>) -> Seq<char> {
    "unexpected null in column "@ + column
}

/// The message for a column that holds a value of another type.
pub open spec fn mistyped_column(column: Seq<char>) -> Seq<char> {
    "unexpected type in column "@ + column
}

/// The integer in column `index` of `row`, or why there is none.
pub open spec fn int_at(row: Seq<SqlValueView>, index: int, column: Seq<char>) -> Result<
    i32,
    Seq<char>,
> {
    if index >= row.len() {
        Err(missing_column(column))
    } else {
        match row[index] {
            SqlValueView::Int(Some(value)) => Ok(value),
            SqlValueView::Int(None) => Err(null_column(column)),
            _ => Err(mistyped_column(column)),
        }
    }
}

/// The amount in column `index` of `row`, or why there is none.
pub open spec fn amount_at(row: Seq<SqlValueView>, index: int, column: Seq<char>) -> Result<
    Amount,
    Seq<char>,
> {
    if index >= row.len() {
        Err(missing_column(column))
    } else {
        match row[index] {
            SqlValueView::Double(Some(value)) => Ok(value),
            SqlValueView::Double(None) => Err(null_column(column)),
            _ => Err(mistyped_column(column)),
        }
    }
}

/// The text in column `index` of `row`, or why there is none.
pub open spec fn text_at(row: Seq<SqlValueView>, index: int, column: Seq<char>) -> Result<
    Seq<char>,
    Seq<char>,
> {
    if index >= row.len() {
        Err(missing_column(column))
    } else {
        match row[index] {
            SqlValueView::Text(Some(value)) => Ok(value),
            SqlValueView::Text(None) => Err(null_column(column)),
            _ => Err(mistyped_column(column)),
        }
    }
}

/// The timestamp in column `index` of `row`, or why there is none.
pub open spec fn timestamp_at(row: Seq<SqlValueView>, index: int, column: Seq<char>) -> Result<
    NaiveDateTime,
    Seq<char>,
> {
    if index >= row.len() {
        Err(missing_column(column))
    } else {
        match row[index] {
            SqlValueView::Timestamp(Some(value)) => Ok(value),
            SqlValueView::Timestamp(None) => Err(null_column(column)),
            _ => Err(mistyped_column(column)),
        }
    }
}

/// The error whose message is `prefix` followed by `column`.
fn column_error(prefix: &str, column: &str) -> (error: StoreError)
    ensures
        error@ == prefix@ + column@,
{
    let mut message = prefix.to_owned();
    message.append(column);
    StoreError { message }
}

fn int_column(row: &Row, index: usize, column: &str) -> (result: Result<i32, StoreError>)
    ensures
        outcome(result) == int_at(row.deep_view(), index as int, column@),
{
    if index >= row.len() {
        return Err(column_error("missing column ", column));
    }
    match &row[index] {
        SqlValue::Int(Some(value)) => Ok(*value),
        SqlValue::Int(None) => Err(column_error("unexpected null in column ", column)),
        _ => Err(column_error("unexpected type in column ", column)),
    }
}

fn amount_column(row: &Row, index: usize, column: &str) -> (result: Result<Amount, StoreError>)
    ensures
        outcome(result) == amount_at(row.deep_view(), index as int, column@),
{
    if index >= row.len() {
        return Err(column_error("missing column ", column));
    }
    match &row[index] {
        SqlValue::Double(Some(value)) => Ok(*value),
        SqlValue::Double(None) => Err(column_error("unexpected null in column ", column)),
        _ => Err(column_error("unexpected type in column ", column)),
    }
}

fn text_column(row: &Row, index: usize, column: &str) -> (result: Result<String, StoreError>)
    ensures
        outcome(result) == text_at(row.deep_view(), index as int, column@),
{
    if index >= row.len() {
        return Err(column_error("missing column ", column));
    }
    match &row[index] {
        SqlValue::Text(Some(value)) => Ok(value.clone()),
        SqlValue::Text(None) => Err(column_error("unexpected null in column ", column)),
        _ => Err(column_error("unexpected type in column ", column)),
    }
}

fn timestamp_column(row: &Row, index: usize, column: &str) -> (result: Result<
    NaiveDateTime,
    StoreError,
>)
    ensures
        match result {
            Ok(value) => timestamp_at(row.deep_view(), index as int, column@) == Ok::<
                NaiveDateTime,
                Seq<char>,
            >(value),
            Err(error) => timestamp_at(row.deep_view(), index as int, column@) == Err::<
                NaiveDateTime,
                Seq<char>,
            >(error@),
        },
{
    if index >= row.len() {
        return Err(column_error("missing column ", column));
    }
    match &row[index] {
        SqlValue::Timestamp(Some(value)) => Ok(*value),
        SqlValue::Timestamp(None) => Err(column_error("unexpected null in column ", column)),
        _ => Err(column_error("unexpected type in column ", column)),
    }
}

/// The bucket that `row` holds: its six columns in the order of
/// [`SELECT_BUCKETS`], each present, of its type and not NULL. Where a column
/// is not, the error of the first such column. Columns beyond the sixth are
/// not looked at.
pub open spec fn bucket_of_row(row: Seq<SqlValueView>) -> Result<BucketView, Seq<char>> {
    match int_at(row, 0, "id"@) {
        Err(e) => Err(e),
        Ok(id) => match text_at(row, 1, "name"@) {
            Err(e) => Err(e),
            Ok(name) => match amount_at(row, 2, "limit_amount"@) {
                Err(e) => Err(e),
                Ok(limit_amount) => match amount_at(row, 3, "current_amount"@) {
                    Err(e) => Err(e),
                    Ok(current_amount) => match timestamp_at(row, 4, "created_at"@) {
                        Err(e) => Err(e),
                        Ok(created_at) => match timestamp_at(row, 5, "updated_at"@) {
                            Err(e) => Err(e),
                            Ok(updated_at) => Ok(
                                BucketView {
                                    id,
                                    name,
                                    limit_amount,
                                    current_amount,
                                    created_at,
                                    updated_at,
                                },
                            ),
                        },
                    },
                },
            },
        },
    }
}

/// Reads one row of the bucket listing.
pub fn bucket_from_row(row: &Row) -> (result: Result<Bucket, StoreError>)
    ensures
        outcome(result) == bucket_of_row(row.deep_view()),
{
    let id = match int_column(row, 0, "id") {
        Ok(value) => value,
        Err(error) => return Err(error),
    };
    let name = match text_column(row, 1, "name") {
        Ok(value) => value,
        Err(error) => return Err(error),
    };
    let limit_amount = match amount_column(row, 2, "limit_amount") {
        Ok(value) => value,
        Err(error) => return Err(error),
    };
    let current_amount = match amount_column(row, 3, "current_amount") {
        Ok(value) => value,
        Err(error) => return Err(error),
    };
    let created_at = match timestamp_column(row, 4, "created_at") {
        Ok(value) => value,
        Err(error) => return Err(error),
    };
    let updated_at = match timestamp_column(row, 5, "updated_at") {
        Ok(value) => value,
        Err(error) => return Err(error),
    };
    Ok(Bucket { id, name, limit_amount, current_amount, created_at, updated_at })
}

/// The buckets that `rows` hold, in the order of the rows; where a row holds
/// none, the error of the first such row.
pub open spec fn buckets_of_rows(rows: Seq<Seq<SqlValueView>>) -> Result<
    Seq<BucketView>,
    Seq<char>,
>
    decreases rows.len(),
{
    if rows.len() == 0 {
        Ok(Seq::empty())
    } else {
        match buckets_of_rows(rows.drop_last()) {
            Err(e) => Err(e),
            Ok(buckets) => match bucket_of_row(rows.last()) {
                Err(e) => Err(e),
                Ok(bucket) => Ok(buckets.push(bucket)),
            },
        }
    }
}

/// A listing that reads well has one bucket for each row, in the order of the
/// rows, and each is what its row holds.
pub proof fn lemma_buckets_row_by_row(rows: Seq<Seq<SqlValueView>>)
    ensures
        buckets_of_rows(rows) matches Ok(buckets) ==> {
            &&& buckets.len() == rows.len()
            &&& forall|k: int|
                0 <= k < rows.len() ==> bucket_of_row(#[trigger] rows[k]) == Ok::<
                    BucketView,
                    Seq<char>,
                >(buckets[k])
        },
        (forall|k: int| 0 <= k < rows.len() ==> bucket_of_row(#[trigger] rows[k]) is Ok)
            ==> buckets_of_rows(rows) is Ok,
    decreases rows.len(),
{
    if rows.len() > 0 {
        lemma_buckets_row_by_row(rows.drop_last());
        if let Ok(buckets) = buckets_of_rows(rows) {
            let earlier = buckets_of_rows(rows.drop_last())->Ok_0;
            assert forall|k: int| 0 <= k < rows.len() implies bucket_of_row(#[trigger] rows[k])
                == Ok::<BucketView, Seq<char>>(buckets[k]) by {
                if k < rows.len() - 1 {
                    assert(bucket_of_row(rows.drop_last()[k]) == Ok::<BucketView, Seq<char>>(
                        earlier[k],
                    ));
                }
            }
        }
    }
}

/// Once the rows read so far hold an error, the whole answer holds that error.
proof fn lemma_buckets_error_stays(rows: Seq<Seq<SqlValueView>>, n: int)
    requires
        0 <= n <= rows.len(),
        buckets_of_rows(rows.take(n)) is Err,
    ensures
        buckets_of_rows(rows) == buckets_of_rows(rows.take(n)),
    decreases rows.len() - n,
{
    if n == rows.len() {
        assert(rows.take(n) =~= rows);
    } else {
        assert(rows.take(n + 1).drop_last() =~= rows.take(n));
        lemma_buckets_error_stays(rows, n + 1);
    }
}

/// Reads the answer to [`db_get_buckets`].
pub fn buckets_from_rows(rows: &Vec<Row>) -> (result: Result<Vec<Bucket>, StoreError>)
    ensures
        outcome(result) == buckets_of_rows(rows.deep_view()),
{
    let mut buckets: Vec<Bucket> = Vec::new();
    let mut i: usize = 0;
    assert(buckets.deep_view() =~= Seq::empty());
    while i < rows.len()
        invariant
            i <= rows.len(),
            buckets_of_rows(rows.deep_view().take(i as int)) == Ok::<Seq<BucketView>, Seq<char>>(
                buckets.deep_view(),
            ),
        decreases rows.len() - i,
    {
        let ghost read = buckets.deep_view();
        proof {
            assert(rows.deep_view().take(i + 1).drop_last() =~= rows.deep_view().take(i as int));
        }
        match bucket_from_row(&rows[i]) {
            Ok(bucket) => {
                buckets.push(bucket);
                assert(buckets.deep_view() =~= read.push(bucket@));
            },
            Err(error) => {
                proof {
                    lemma_buckets_error_stays(rows.deep_view(), i + 1);
                }
                return Err(error);
            },
        }
        i = i + 1;
    }
    assert(rows.deep_view().take(i as int) =~= rows.deep_view());
    Ok(buckets)
}

/// A statement that returns no rows.
pub open spec fn write_statement(sql: Seq<char>, params: Seq<SqlValueView>) -> StatementView {
    StatementView { sql, params, columns: Seq::empty() }
}

/// Builds a statement that returns no rows.
fn write(sql: &str, params: Vec<SqlValue>) -> (statement: Statement)
    ensures
        statement@ == write_statement(sql@, params.deep_view()),
{
    let statement = Statement { sql: sql.to_owned(), params, columns: Vec::new() };
    statement
}

/// The statement that inserts a bucket with the given fields. The id and both
/// timestamps are left to the backend.
pub open spec fn insert_bucket_statement(
    name: Seq<char>,
    limit: Amount,
    current: Amount,
) -> StatementView {
    write_statement(
        INSERT_BUCKET@,
        seq![
            SqlValueView::Text(Some(name)),
            SqlValueView::Double(Some(limit)),
            SqlValueView::Double(Some(current)),
        ],
    )
}

/// Inserts one bucket.
pub fn db_create_bucket(name: &String, limit: &Amount, current: &Amount) -> (statement: Statement)
    ensures
        statement@ == insert_bucket_statement(name@, *limit, *current),
{
    let mut params: Vec<SqlValue> = Vec::new();
    params.push(SqlValue::Text(Some(name.clone())));
    params.push(SqlValue::Double(Some(*limit)));
    params.push(SqlValue::Double(Some(*current)));
    assert(params.deep_view() =~= insert_bucket_statement(name@, *limit, *current).params);
    write(INSERT_BUCKET, params)
}

/// The statement that overwrites the three settable columns of the bucket
/// `id`. A field that is `None` is written as NULL.
pub open spec fn update_bucket_statement(
    id: i32,
    name: Option<Seq<char>>,
    limit: Option<Amount>,
    current: Option<Amount>,
) -> StatementView {
    write_statement(
        UPDATE_BUCKET@,
        seq![
            SqlValueView::Text(name),
            SqlValueView::Double(limit),
            SqlValueView::Double(current),
            SqlValueView::Int(Some(id)),
        ],
    )
}

/// Overwrites the settable columns of one bucket.
pub fn db_modify_bucket(
    id: &i32,
    name: Option<String>,
    limit: Option<Amount>,
    current: Option<Amount>,
) -> (statement: Statement)
    ensures
        statement@ == update_bucket_statement(*id, name.deep_view(), limit, current),
{
    let ghost expected = update_bucket_statement(*id, name.deep_view(), limit, current);
    let mut params: Vec<SqlValue> = Vec::new();
    params.push(SqlValue::Text(name));
    params.push(SqlValue::Double(limit));
    params.push(SqlValue::Double(current));
    params.push(SqlValue::Int(Some(*id)));
    assert(params.deep_view() =~= expected.params);
    write(UPDATE_BUCKET, params)
}

/// The statement that deletes the row `id` of a table, given the table's
/// delete text.
pub open spec fn delete_statement(sql: Seq<char>, id: i32) -> StatementView {
    write_statement(sql, seq![SqlValueView::Int(Some(id))])
}

/// Builds the statement that deletes the row `id`.
fn delete(sql: &str, id: i32) -> (statement: Statement)
    ensures
        statement@ == delete_statement(sql@, id),
{
    let mut params: Vec<SqlValue> = Vec::new();
    params.push(SqlValue::Int(Some(id)));
    assert(params.deep_view() =~= seq![SqlValueView::Int(Some(id))]);
    write(sql, params)
}

/// Deletes one bucket. The statement is the same whether or not the row
/// exists.
pub fn db_delete_bucket(id: &i32) -> (statement: Statement)
    ensures
        statement@ == delete_statement(DELETE_BUCKET@, *id),
{
    delete(DELETE_BUCKET, *id)
}

/// The statement that lists every transaction.
pub open spec fn select_transactions_statement() -> StatementView {
    StatementView {
        sql: SELECT_TRANSACTIONS@,
        params: Seq::empty(),
        columns: seq![SqlType::Int, SqlType::Double, SqlType::Timestamp, SqlType::Int],
    }
}

/// Lists every transaction, in whatever order the backend returns them.
pub fn db_get_transactions() -> (statement: Statement)
    ensures
        statement@ == select_transactions_statement(),
{
    let mut columns: Vec<SqlType> = Vec::new();
    columns.push(SqlType::Int);
    columns.push(SqlType::Double);
    columns.push(SqlType::Timestamp);
    columns.push(SqlType::Int);
    let statement = Statement { sql: SELECT_TRANSACTIONS.to_owned(), params: Vec::new(), columns };
    assert(statement@.params =~= Seq::empty());
    assert(statement@.columns =~= select_transactions_statement().columns);
    statement
}

/// The transaction that `row` holds: its four columns in the order of
/// [`SELECT_TRANSACTIONS`], each present, of its type and not NULL. Where a
/// column is not, the error of the first such column.
pub open spec fn transaction_of_row(row: Seq<SqlValueView>) -> Result<Transaction, Seq<char>> {
    match int_at(row, 0, "id"@) {
        Err(e) => Err(e),
        Ok(id) => match amount_at(row, 1, "amount"@) {
            Err(e) => Err(e),
            Ok(amount) => match timestamp_at(row, 2, "date"@) {
                Err(e) => Err(e),
                Ok(date) => match int_at(row, 3, "bucket_id"@) {
                    Err(e) => Err(e),
                    Ok(bucket_id) => Ok(Transaction { id, amount, date, bucket_id }),
                },
            },
        },
    }
}

/// Reads one row of the transaction listing.
pub fn transaction_from_row(row: &Row) -> (result: Result<Transaction, StoreError>)
    ensures
        outcome(result) == transaction_of_row(row.deep_view()),
{
    let id = match int_column(row, 0, "id") {
        Ok(value) => value,
        Err(error) => return Err(error),
    };
    let amount = match amount_column(row, 1, "amount") {
        Ok(value) => value,
        Err(error) => return Err(error),
    };
    let date = match timestamp_column(row, 2, "date") {
        Ok(value) => value,
        Err(error) => return Err(error),
    };
    let bucket_id = match int_column(row, 3, "bucket_id") {
        Ok(value) => value,
        Err(error) => return Err(error),
    };
    Ok(Transaction { id, amount, date, bucket_id })
}

/// The transactions that `rows` hold, in the order of the rows; where a row
/// holds none, the error of the first such row.
pub open spec fn transactions_of_rows(rows: Seq<Seq<SqlValueView>>) -> Result<
    Seq<Transaction>,
    Seq<char>,
>
    decreases rows.len(),
{
    if rows.len() == 0 {
        Ok(Seq::empty())
    } else {
        match transactions_of_rows(rows.drop_last()) {
            Err(e) => Err(e),
            Ok(transactions) => match transaction_of_row(rows.last()) {
                Err(e) => Err(e),
                Ok(transaction) => Ok(transactions.push(transaction)),
            },
        }
    }
}

/// A listing that reads well has one transaction for each row, in the order
/// of the rows, and each is what its row holds.
pub proof fn lemma_transactions_row_by_row(rows: Seq<Seq<SqlValueView>>)
    ensures
        transactions_of_rows(rows) matches Ok(transactions) ==> {
            &&& transactions.len() == rows.len()
            &&& forall|k: int|
                0 <= k < rows.len() ==> transaction_of_row(#[trigger] rows[k]) == Ok::<
                    Transaction,
                    Seq<char>,
                >(transactions[k])
        },
        (forall|k: int| 0 <= k < rows.len() ==> transaction_of_row(#[trigger] rows[k]) is Ok)
            ==> transactions_of_rows(rows) is Ok,
    decreases rows.len(),
{
    if rows.len() > 0 {
        lemma_transactions_row_by_row(rows.drop_last());
        if let Ok(transactions) = transactions_of_rows(rows) {
            let earlier = transactions_of_rows(rows.drop_last())->Ok_0;
            assert forall|k: int| 0 <= k < rows.len() implies transaction_of_row(
                #[trigger] rows[k],
            ) == Ok::<Transaction, Seq<char>>(transactions[k]) by {
                if k < rows.len() - 1 {
                    assert(transaction_of_row(rows.drop_last()[k]) == Ok::<
                        Transaction,
                        Seq<char>,
                    >(earlier[k]));
                }
            }
        }
    }
}

/// Once the rows read so far hold an error, the whole answer holds that error.
proof fn lemma_transactions_error_stays(rows: Seq<Seq<SqlValueView>>, n: int)
    requires
        0 <= n <= rows.len(),
        transactions_of_rows(rows.take(n)) is Err,
    ensures
        transactions_of_rows(rows) == transactions_of_rows(rows.take(n)),
    decreases rows.len() - n,
{
    if n == rows.len() {
        assert(rows.take(n) =~= rows);
    } else {
        assert(rows.take(n + 1).drop_last() =~= rows.take(n));
        lemma_transactions_error_stays(rows, n + 1);
    }
}

/// Reads the answer to [`db_get_transactions`].
pub fn transactions_from_rows(rows: &Vec<Row>) -> (result: Result<Vec<Transaction>, StoreError>)
    ensures
        outcome(result) == transactions_of_rows(rows.deep_view()),
{
    let mut transactions: Vec<Transaction> = Vec::new();
    let mut i: usize = 0;
    assert(transactions.deep_view() =~= Seq::empty());
    while i < rows.len()
        invariant
            i <= rows.len(),
            transactions_of_rows(rows.deep_view().take(i as int)) == Ok::<
                Seq<Transaction>,
                Seq<char>,
            >(transactions.deep_view()),
        decreases rows.len() - i,
    {
        let ghost read = transactions.deep_view();
        proof {
            assert(rows.deep_view().take(i + 1).drop_last() =~= rows.deep_view().take(i as int));
        }
        match transaction_from_row(&rows[i]) {
            Ok(transaction) => {
                transactions.push(transaction);
                assert(transactions.deep_view() =~= read.push(transaction));
            },
            Err(error) => {
                proof {
                    lemma_transactions_error_stays(rows.deep_view(), i + 1);
                }
                return Err(error);
            },
        }
        i = i + 1;
    }
    assert(rows.deep_view().take(i as int) =~= rows.deep_view());
    Ok(transactions)
}

/// The statement that inserts a transaction with the given fields. The id and
/// the date are left to the backend; whether the bucket exists is for the
/// backend to check.
pub open spec fn insert_transaction_statement(amount: Amount, bucket_id: i32) -> StatementView {
    write_statement(
        INSERT_TRANSACTION@,
        seq![SqlValueView::Double(Some(amount)), SqlValueView::Int(Some(bucket_id))],
    )
}

/// Inserts one transaction.
pub fn db_create_transaction(amount: &Amount, bucket_id: &i32) -> (statement: Statement)
    ensures
        statement@ == insert_transaction_statement(*amount, *bucket_id),
{
    let mut params: Vec<SqlValue> = Vec::new();
    params.push(SqlValue::Double(Some(*amount)));
    params.push(SqlValue::Int(Some(*bucket_id)));
    assert(params.deep_view() =~= insert_transaction_statement(*amount, *bucket_id).params);
    write(INSERT_TRANSACTION, params)
}

/// The statement that overwrites the two settable columns of the transaction
/// `id`. A field that is `None` is written as NULL.
pub open spec fn update_transaction_statement(
    id: i32,
    amount: Option<Amount>,
    bucket_id: Option<i32>,
) -> StatementView {
    write_statement(
        UPDATE_TRANSACTION@,
        seq![
            SqlValueView::Double(amount),
            SqlValueView::Int(bucket_id),
            SqlValueView::Int(Some(id)),
        ],
    )
}

/// Overwrites the settable columns of one transaction.
pub fn db_modify_transaction(id: &i32, amount: Option<Amount>, bucket_id: Option<i32>) -> (statement:
    Statement)
    ensures
        statement@ == update_transaction_statement(*id, amount, bucket_id),
{
    let mut params: Vec<SqlValue> = Vec::new();
    params.push(SqlValue::Double(amount));
    params.push(SqlValue::Int(bucket_id));
    params.push(SqlValue::Int(Some(*id)));
    assert(params.deep_view() =~= update_transaction_statement(*id, amount, bucket_id).params);
    write(UPDATE_TRANSACTION, params)
}

/// Deletes one transaction. The statement is the same whether or not the row
/// exists.
pub fn db_delete_transaction(id: &i32) -> (statement: Statement)
    ensures
        statement@ == delete_statement(DELETE_TRANSACTION@, *id),
{
    delete(DELETE_TRANSACTION, *id)
}

/// The statement that reads the balance.
pub open spec fn select_balance_statement() -> StatementView {
    StatementView {
        sql: SELECT_BALANCE@,
        params: Seq::empty(),
        columns: seq![SqlType::Int, SqlType::Double, SqlType::Text, SqlType::Text],
    }
}

/// Reads the balance table, which is expected to hold one row.
pub fn db_get_balance() -> (statement: Statement)
    ensures
        statement@ == select_balance_statement(),
{
    let mut columns: Vec<SqlType> = Vec::new();
    columns.push(SqlType::Int);
    columns.push(SqlType::Double);
    columns.push(SqlType::Text);
    columns.push(SqlType::Text);
    let statement = Statement { sql: SELECT_BALANCE.to_owned(), params: Vec::new(), columns };
    assert(statement@.params =~= Seq::empty());
    assert(statement@.columns =~= select_balance_statement().columns);
    statement
}

/// The balance that `row` holds: its four columns in the order of
/// [`SELECT_BALANCE`], each present, of its type and not NULL. Where a column
/// is not, the error of the first such column.
pub open spec fn balance_of_row(row: Seq<SqlValueView>) -> Result<BalanceView, Seq<char>> {
    match int_at(row, 0, "id"@) {
        Err(e) => Err(e),
        Ok(id) => match amount_at(row, 1, "amount"@) {
            Err(e) => Err(e),
            Ok(amount) => match text_at(row, 2, "account_type"@) {
                Err(e) => Err(e),
                Ok(account_type) => match text_at(row, 3, "user_name"@) {
                    Err(e) => Err(e),
                    Ok(user_name) => Ok(BalanceView { id, amount, account_type, user_name }),
                },
            },
        },
    }
}

/// Reads one row of the balance table.
pub fn balance_from_row(row: &Row) -> (result: Result<Balance, StoreError>)
    ensures
        outcome(result) == balance_of_row(row.deep_view()),
{
    let id = match int_column(row, 0, "id") {
        Ok(value) => value,
        Err(error) => return Err(error),
    };
    let amount = match amount_column(row, 1, "amount") {
        Ok(value) => value,
        Err(error) => return Err(error),
    };
    let account_type = match text_column(row, 2, "account_type") {
        Ok(value) => value,
        Err(error) => return Err(error),
    };
    let user_name = match text_column(row, 3, "user_name") {
        Ok(value) => value,
        Err(error) => return Err(error),
    };
    Ok(Balance { id, amount, account_type, user_name })
}

/// The balance that `rows` hold: the one row, read. No row and more than one
/// row are errors, each with its own message.
pub open spec fn balance_of_rows(rows: Seq<Seq<SqlValueView>>) -> Result<BalanceView, Seq<char>> {
    if rows.len() == 0 {
        Err(NO_BALANCE_ROW@)
    } else if rows.len() > 1 {
        Err(SEVERAL_BALANCE_ROWS@)
    } else {
        balance_of_row(rows[0])
    }
}

/// Reads the answer to [`db_get_balance`].
pub fn balance_from_rows(rows: &Vec<Row>) -> (result: Result<Balance, StoreError>)
    ensures
        outcome(result) == balance_of_rows(rows.deep_view()),
{
    if rows.len() == 0 {
        Err(StoreError { message: NO_BALANCE_ROW.to_owned() })
    } else if rows.len() > 1 {
        Err(StoreError { message: SEVERAL_BALANCE_ROWS.to_owned() })
    } else {
        balance_from_row(&rows[0])
    }
}

/// The statement that inserts a balance with the given fields. The id is left
/// to the backend. Nothing keeps a second balance from being inserted.
pub open spec fn insert_balance_statement(
    amount: Amount,
    account_type: Seq<char>,
    user_name: Seq<char>,
) -> StatementView {
    write_statement(
        INSERT_BALANCE@,
        seq![
            SqlValueView::Double(Some(amount)),
            SqlValueView::Text(Some(account_type)),
            SqlValueView::Text(Some(user_name)),
        ],
    )
}

/// Inserts one balance.
pub fn db_create_balance(amount: &Amount, account_type: &String, user_name: &String) -> (statement:
    Statement)
    ensures
        statement@ == insert_balance_statement(*amount, account_type@, user_name@),
{
    let mut params: Vec<SqlValue> = Vec::new();
    params.push(SqlValue::Double(Some(*amount)));
    params.push(SqlValue::Text(Some(account_type.clone())));
    params.push(SqlValue::Text(Some(user_name.clone())));
    assert(params.deep_view() =~= insert_balance_statement(
        *amount,
        account_type@,
        user_name@,
    ).params);
    write(INSERT_BALANCE, params)
}

/// The statement that overwrites the three settable columns of the balance
/// `id`. A field that is `None` is written as NULL.
pub open spec fn update_balance_statement(
    id: i32,
    amount: Option<Amount>,
    account_type: Option<Seq<char>>,
    user_name: Option<Seq<char>>,
) -> StatementView {
    write_statement(
        UPDATE_BALANCE@,
        seq![
            SqlValueView::Double(amount),
            SqlValueView::Text(account_type),
            SqlValueView::Text(user_name),
            SqlValueView::Int(Some(id)),
        ],
    )
}

/// Overwrites the settable columns of one balance.
pub fn db_modify_balance(
    id: &i32,
    amount: Option<Amount>,
    account_type: Option<String>,
    user_name: Option<String>,
) -> (statement: Statement)
    ensures
        statement@ == update_balance_statement(
            *id,
            amount,
            account_type.deep_view(),
            user_name.deep_view(),
        ),
{
    let ghost expected = update_balance_statement(
        *id,
        amount,
        account_type.deep_view(),
        user_name.deep_view(),
    );
    let mut params: Vec<SqlValue> = Vec::new();
    params.push(SqlValue::Double(amount));
    params.push(SqlValue::Text(account_type));
    params.push(SqlValue::Text(user_name));
    params.push(SqlValue::Int(Some(*id)));
    assert(params.deep_view() =~= expected.params);
    write(UPDATE_BALANCE, params)
}

/// Deletes one balance. The statement is the same whether or not the row
/// exists.
pub fn db_delete_balance(id: &i32) -> (statement: Statement)
    ensures
        statement@ == delete_statement(DELETE_BALANCE@, *id),
{
    delete(DELETE_BALANCE, *id)
}

/// What a statement that returns no rows has done, given the number of rows
/// that the backend reports as affected: it has succeeded, whatever the
/// number. A statement that found no row to change is no error.
pub open spec fn written_of(reply: Result<u64, Seq<char>>) -> Result<(), Seq<char>> {
    match reply {
        Ok(_) => Ok(()),
        Err(e) => Err(e),
    }
}

/// Reads the answer to a statement that returns no rows.
pub fn written(reply: Result<u64, StoreError>) -> (result: Result<(), StoreError>)
    ensures
        outcome(result) == written_of(outcome(reply)),
{
    match reply {
        Ok(_) => Ok(()),
        Err(error) => Err(error),
    }
}

} // verus!
