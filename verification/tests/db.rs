use expense_tracker::db::{
    balance_from_row, balance_from_rows, bucket_from_row, buckets_from_rows, db_create_balance,
    db_create_bucket, db_create_transaction, db_delete_balance, db_delete_bucket,
    db_delete_transaction, db_get_balance, db_get_buckets, db_get_transactions, db_modify_balance,
    db_modify_bucket, db_modify_transaction, transaction_from_row, transactions_from_rows, written,
    Row, SqlType, SqlValue, StoreError,
};
use chrono::{DateTime, NaiveDateTime};
use expense_tracker::models::{Amount, Balance, Bucket, Transaction};

fn amount(value: f64) -> Amount {
    Amount::from_bits(value.to_bits())
}

fn at(seconds: i64) -> NaiveDateTime {
    DateTime::from_timestamp(seconds, 0).unwrap().naive_utc()
}

fn text(value: &str) -> SqlValue {
    SqlValue::Text(Some(String::from(value)))
}

fn error(message: &str) -> StoreError {
    StoreError { message: String::from(message) }
}

fn bucket_row(id: i32, name: &str, limit: f64, current: f64) -> Row {
    vec![
        SqlValue::Int(Some(id)),
        text(name),
        SqlValue::Double(Some(amount(limit))),
        SqlValue::Double(Some(amount(current))),
        SqlValue::Timestamp(Some(at(100))),
        SqlValue::Timestamp(Some(at(200))),
    ]
}

fn transaction_row(id: i32, value: f64, bucket_id: i32) -> Row {
    vec![
        SqlValue::Int(Some(id)),
        SqlValue::Double(Some(amount(value))),
        SqlValue::Timestamp(Some(at(300))),
        SqlValue::Int(Some(bucket_id)),
    ]
}

fn balance_row(id: i32, value: f64, account_type: &str, user_name: &str) -> Row {
    vec![SqlValue::Int(Some(id)), SqlValue::Double(Some(amount(value))), text(account_type), text(user_name)]
}

#[test]
fn get_buckets_selects_six_columns() {
    let statement = db_get_buckets();
    assert_eq!(
        statement.sql,
        "SELECT id, name, limit_amount, current_amount, created_at, updated_at FROM bucket"
    );
    assert!(statement.params.is_empty());
    assert_eq!(
        statement.columns,
        vec![
            SqlType::Int,
            SqlType::Text,
            SqlType::Double,
            SqlType::Double,
            SqlType::Timestamp,
            SqlType::Timestamp
        ]
    );
}

#[test]
fn create_bucket_binds_the_three_fields_in_order() {
    let statement = db_create_bucket(&String::from("Groceries"), &amount(300.0), &amount(0.0));
    assert_eq!(
        statement.sql,
        "INSERT INTO bucket (name, limit_amount, current_amount) VALUES ($1, $2, $3)"
    );
    assert_eq!(
        statement.params,
        vec![
            text("Groceries"),
            SqlValue::Double(Some(amount(300.0))),
            SqlValue::Double(Some(amount(0.0)))
        ]
    );
    assert!(statement.columns.is_empty());
}

#[test]
fn modify_bucket_binds_every_column_and_the_id_last() {
    let statement =
        db_modify_bucket(&4, Some(String::from("Rent")), Some(amount(900.0)), Some(amount(12.5)));
    assert_eq!(
        statement.sql,
        "UPDATE bucket SET name = $1, limit_amount = $2, current_amount = $3 WHERE id = $4"
    );
    assert_eq!(
        statement.params,
        vec![
            text("Rent"),
            SqlValue::Double(Some(amount(900.0))),
            SqlValue::Double(Some(amount(12.5))),
            SqlValue::Int(Some(4))
        ]
    );
    assert!(statement.columns.is_empty());
}

#[test]
fn modify_bucket_binds_null_for_what_is_left_out() {
    let statement = db_modify_bucket(&4, None, Some(amount(900.0)), None);
    assert_eq!(
        statement.params,
        vec![
            SqlValue::Text(None),
            SqlValue::Double(Some(amount(900.0))),
            SqlValue::Double(None),
            SqlValue::Int(Some(4))
        ]
    );
}

#[test]
fn delete_bucket_binds_the_id() {
    let statement = db_delete_bucket(&-3);
    assert_eq!(statement.sql, "DELETE FROM bucket WHERE id = $1");
    assert_eq!(statement.params, vec![SqlValue::Int(Some(-3))]);
    assert!(statement.columns.is_empty());
}

#[test]
fn get_transactions_selects_four_columns() {
    let statement = db_get_transactions();
    assert_eq!(statement.sql, "SELECT id, amount, date, bucket_id FROM transaction");
    assert!(statement.params.is_empty());
    assert_eq!(
        statement.columns,
        vec![SqlType::Int, SqlType::Double, SqlType::Timestamp, SqlType::Int]
    );
}

#[test]
fn create_transaction_binds_amount_then_bucket() {
    let statement = db_create_transaction(&amount(19.99), &2);
    assert_eq!(statement.sql, "INSERT INTO transaction (amount, bucket_id) VALUES ($1, $2)");
    assert_eq!(
        statement.params,
        vec![SqlValue::Double(Some(amount(19.99))), SqlValue::Int(Some(2))]
    );
    assert!(statement.columns.is_empty());
}

#[test]
fn modify_transaction_binds_null_for_what_is_left_out() {
    let statement = db_modify_transaction(&8, None, Some(3));
    assert_eq!(
        statement.sql,
        "UPDATE transaction SET amount = $1, bucket_id = $2 WHERE id = $3"
    );
    assert_eq!(
        statement.params,
        vec![SqlValue::Double(None), SqlValue::Int(Some(3)), SqlValue::Int(Some(8))]
    );
    let none = db_modify_transaction(&8, None, None);
    assert_eq!(
        none.params,
        vec![SqlValue::Double(None), SqlValue::Int(None), SqlValue::Int(Some(8))]
    );
}

#[test]
fn delete_transaction_binds_the_id() {
    let statement = db_delete_transaction(&17);
    assert_eq!(statement.sql, "DELETE FROM transaction WHERE id = $1");
    assert_eq!(statement.params, vec![SqlValue::Int(Some(17))]);
}

#[test]
fn get_balance_selects_four_columns() {
    let statement = db_get_balance();
    assert_eq!(statement.sql, "SELECT id, amount, account_type, user_name FROM balance");
    assert!(statement.params.is_empty());
    assert_eq!(statement.columns, vec![SqlType::Int, SqlType::Double, SqlType::Text, SqlType::Text]);
}

#[test]
fn create_balance_binds_the_three_fields_in_order() {
    let statement =
        db_create_balance(&amount(1000.0), &String::from("checking"), &String::from("alice"));
    assert_eq!(
        statement.sql,
        "INSERT INTO balance (amount, account_type, user_name) VALUES ($1, $2, $3)"
    );
    assert_eq!(
        statement.params,
        vec![SqlValue::Double(Some(amount(1000.0))), text("checking"), text("alice")]
    );
}

#[test]
fn modify_balance_binds_null_for_what_is_left_out() {
    let statement = db_modify_balance(&1, Some(amount(5.0)), None, Some(String::from("bob")));
    assert_eq!(
        statement.sql,
        "UPDATE balance SET amount = $1, account_type = $2, user_name = $3 WHERE id = $4"
    );
    assert_eq!(
        statement.params,
        vec![
            SqlValue::Double(Some(amount(5.0))),
            SqlValue::Text(None),
            text("bob"),
            SqlValue::Int(Some(1))
        ]
    );
}

#[test]
fn delete_balance_binds_the_id() {
    let statement = db_delete_balance(&i32::MAX);
    assert_eq!(statement.sql, "DELETE FROM balance WHERE id = $1");
    assert_eq!(statement.params, vec![SqlValue::Int(Some(i32::MAX))]);
}

#[test]
fn bucket_row_reads_as_a_bucket() {
    let bucket = bucket_from_row(&bucket_row(1, "Groceries", 300.0, 0.0));
    assert_eq!(
        bucket,
        Ok(Bucket {
            id: 1,
            name: String::from("Groceries"),
            limit_amount: amount(300.0),
            current_amount: amount(0.0),
            created_at: at(100),
            updated_at: at(200),
        })
    );
}

#[test]
fn bucket_row_ignores_columns_beyond_the_sixth() {
    let mut row = bucket_row(1, "Groceries", 300.0, 0.0);
    row.push(SqlValue::Int(Some(9)));
    assert!(bucket_from_row(&row).is_ok());
}

#[test]
fn bucket_row_that_is_short_names_the_missing_column() {
    let mut row = bucket_row(1, "Groceries", 300.0, 0.0);
    row.pop();
    assert_eq!(bucket_from_row(&row), Err(error("missing column updated_at")));
    assert_eq!(bucket_from_row(&Vec::new()), Err(error("missing column id")));
}

#[test]
fn bucket_row_with_a_null_names_the_column() {
    let mut row = bucket_row(1, "Groceries", 300.0, 0.0);
    row[1] = SqlValue::Text(None);
    assert_eq!(bucket_from_row(&row), Err(error("unexpected null in column name")));
    let mut row = bucket_row(1, "Groceries", 300.0, 0.0);
    row[3] = SqlValue::Double(None);
    assert_eq!(bucket_from_row(&row), Err(error("unexpected null in column current_amount")));
}

#[test]
fn bucket_row_with_another_type_names_the_column() {
    let mut row = bucket_row(1, "Groceries", 300.0, 0.0);
    row[2] = SqlValue::Int(Some(300));
    assert_eq!(bucket_from_row(&row), Err(error("unexpected type in column limit_amount")));
    let mut row = bucket_row(1, "Groceries", 300.0, 0.0);
    row[4] = text("yesterday");
    assert_eq!(bucket_from_row(&row), Err(error("unexpected type in column created_at")));
}

#[test]
fn bucket_row_reports_its_first_bad_column() {
    let mut row = bucket_row(1, "Groceries", 300.0, 0.0);
    row[0] = SqlValue::Int(None);
    row[1] = SqlValue::Int(Some(1));
    assert_eq!(bucket_from_row(&row), Err(error("unexpected null in column id")));
}

#[test]
fn bucket_rows_read_in_order() {
    let rows = vec![bucket_row(2, "Rent", 900.0, 10.0), bucket_row(1, "Groceries", 300.0, 0.0)];
    let buckets = buckets_from_rows(&rows).unwrap();
    assert_eq!(buckets.len(), 2);
    assert_eq!(buckets[0].id, 2);
    assert_eq!(buckets[0].name, "Rent");
    assert_eq!(buckets[1].id, 1);
    assert_eq!(buckets[1].limit_amount, amount(300.0));
}

#[test]
fn no_bucket_rows_read_as_no_buckets() {
    assert_eq!(buckets_from_rows(&Vec::new()), Ok(Vec::new()));
}

#[test]
fn bucket_rows_report_their_first_bad_row() {
    let mut second = bucket_row(2, "Rent", 900.0, 10.0);
    second[5] = SqlValue::Timestamp(None);
    let mut third = bucket_row(3, "Fun", 50.0, 1.0);
    third[0] = text("three");
    let rows = vec![bucket_row(1, "Groceries", 300.0, 0.0), second, third];
    assert_eq!(buckets_from_rows(&rows), Err(error("unexpected null in column updated_at")));
}

#[test]
fn transaction_row_reads_as_a_transaction() {
    assert_eq!(
        transaction_from_row(&transaction_row(5, 12.25, 2)),
        Ok(Transaction { id: 5, amount: amount(12.25), date: at(300), bucket_id: 2 })
    );
}

#[test]
fn transaction_row_names_what_is_wrong() {
    let mut row = transaction_row(5, 12.25, 2);
    row[3] = SqlValue::Int(None);
    assert_eq!(transaction_from_row(&row), Err(error("unexpected null in column bucket_id")));
    let mut row = transaction_row(5, 12.25, 2);
    row[1] = text("12.25");
    assert_eq!(transaction_from_row(&row), Err(error("unexpected type in column amount")));
    let mut row = transaction_row(5, 12.25, 2);
    row.truncate(2);
    assert_eq!(transaction_from_row(&row), Err(error("missing column date")));
}

#[test]
fn transaction_rows_read_in_order() {
    let rows = vec![transaction_row(9, 1.0, 1), transaction_row(3, 2.0, 1), transaction_row(4, 3.0, 2)];
    let transactions = transactions_from_rows(&rows).unwrap();
    assert_eq!(transactions.iter().map(|t| t.id).collect::<Vec<i32>>(), vec![9, 3, 4]);
    assert_eq!(transactions_from_rows(&Vec::new()), Ok(Vec::new()));
}

#[test]
fn transaction_rows_report_their_first_bad_row() {
    let mut bad = transaction_row(3, 2.0, 1);
    bad[2] = SqlValue::Timestamp(None);
    let rows = vec![transaction_row(9, 1.0, 1), bad, Vec::new()];
    assert_eq!(transactions_from_rows(&rows), Err(error("unexpected null in column date")));
}

#[test]
fn balance_row_reads_as_a_balance() {
    assert_eq!(
        balance_from_row(&balance_row(1, 1000.0, "checking", "alice")),
        Ok(Balance {
            id: 1,
            amount: amount(1000.0),
            account_type: String::from("checking"),
            user_name: String::from("alice"),
        })
    );
}

#[test]
fn balance_row_names_what_is_wrong() {
    let mut row = balance_row(1, 1000.0, "checking", "alice");
    row[2] = SqlValue::Text(None);
    assert_eq!(balance_from_row(&row), Err(error("unexpected null in column account_type")));
    let mut row = balance_row(1, 1000.0, "checking", "alice");
    row[3] = SqlValue::Double(Some(amount(1.0)));
    assert_eq!(balance_from_row(&row), Err(error("unexpected type in column user_name")));
}

#[test]
fn one_balance_row_is_the_balance() {
    let rows = vec![balance_row(1, 1000.0, "checking", "alice")];
    assert_eq!(balance_from_rows(&rows).unwrap().user_name, "alice");
}

#[test]
fn no_balance_row_is_an_error() {
    assert_eq!(
        balance_from_rows(&Vec::new()),
        Err(error("no rows returned by a query that expected to return exactly one row"))
    );
}

#[test]
fn several_balance_rows_are_an_error() {
    let rows = vec![
        balance_row(1, 1000.0, "checking", "alice"),
        balance_row(2, 5.0, "savings", "alice"),
    ];
    assert_eq!(
        balance_from_rows(&rows),
        Err(error("more than one row returned by a query that expected to return exactly one row"))
    );
}

#[test]
fn written_does_not_look_at_the_count() {
    assert_eq!(written(Ok(1)), Ok(()));
    assert_eq!(written(Ok(0)), Ok(()));
    assert_eq!(written(Ok(u64::MAX)), Ok(()));
}

#[test]
fn written_hands_the_error_on() {
    assert_eq!(written(Err(error("connection refused"))), Err(error("connection refused")));
}

#[test]
fn timed_out_is_a_store_error_with_its_message() {
    assert_eq!(expense_tracker::db::timed_out(), error("the store did not answer in time"));
    assert_eq!(expense_tracker::db::STORE_TIMED_OUT, "the store did not answer in time");
}
