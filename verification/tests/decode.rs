use expense_tracker::decode::{
    decode_create_balance, decode_create_bucket, decode_create_transaction, decode_update_balance,
    decode_update_bucket, decode_update_transaction, key_of, DecodeError, Field,
};
use expense_tracker::json::{find, JsonDocument, JsonMember, JsonNumber, JsonValue};
use expense_tracker::models::{
    Amount, CreateBalance, CreateBucket, CreateTransaction, UpdateBalance, UpdateBucket,
    UpdateTransaction,
};

fn amount(value: f64) -> Amount {
    Amount::from_bits(value.to_bits())
}

fn number(value: f64) -> JsonValue {
    JsonValue::Number(JsonNumber { amount: amount(value), integer: None })
}

fn integer(value: i64) -> JsonValue {
    JsonValue::Number(JsonNumber { amount: amount(value as f64), integer: Some(value) })
}

fn text(value: &str) -> JsonValue {
    JsonValue::Text(String::from(value))
}

fn object(members: Vec<(&str, JsonValue)>) -> JsonDocument {
    JsonDocument::Object(
        members
            .into_iter()
            .map(|(key, value)| JsonMember { key: String::from(key), value })
            .collect(),
    )
}

#[test]
fn keys_are_the_field_names() {
    assert_eq!(key_of(Field::Name), "name");
    assert_eq!(key_of(Field::LimitAmount), "limit_amount");
    assert_eq!(key_of(Field::CurrentAmount), "current_amount");
    assert_eq!(key_of(Field::Amount), "amount");
    assert_eq!(key_of(Field::BucketId), "bucket_id");
    assert_eq!(key_of(Field::AccountType), "account_type");
    assert_eq!(key_of(Field::UserName), "user_name");
}

#[test]
fn find_takes_the_last_of_two_members() {
    let members = vec![
        JsonMember { key: String::from("name"), value: text("first") },
        JsonMember { key: String::from("other"), value: JsonValue::Null },
        JsonMember { key: String::from("name"), value: text("second") },
    ];
    assert_eq!(find(&members, "name"), Some(&text("second")));
    assert_eq!(find(&members, "other"), Some(&JsonValue::Null));
    assert_eq!(find(&members, "nam"), None);
    assert_eq!(find(&Vec::new(), "name"), None);
}

#[test]
fn create_bucket_takes_its_three_fields() {
    let document = object(vec![
        ("name", text("Groceries")),
        ("limit_amount", number(300.0)),
        ("current_amount", number(0.0)),
    ]);
    assert_eq!(
        decode_create_bucket(&document),
        Ok(CreateBucket {
            name: String::from("Groceries"),
            limit_amount: amount(300.0),
            current_amount: amount(0.0),
        })
    );
}

#[test]
fn create_bucket_takes_an_integer_as_an_amount() {
    let document = object(vec![
        ("current_amount", integer(0)),
        ("limit_amount", integer(300)),
        ("name", text("Groceries")),
    ]);
    assert_eq!(
        decode_create_bucket(&document),
        Ok(CreateBucket {
            name: String::from("Groceries"),
            limit_amount: amount(300.0),
            current_amount: amount(0.0),
        })
    );
}

#[test]
fn create_bucket_ignores_members_it_does_not_know() {
    let document = object(vec![
        ("id", integer(99)),
        ("name", text("Groceries")),
        ("limit_amount", number(300.0)),
        ("created_at", text("2024-01-01T00:00:00")),
        ("current_amount", number(0.0)),
        ("nested", JsonValue::Object),
    ]);
    assert!(decode_create_bucket(&document).is_ok());
}

#[test]
fn create_bucket_needs_every_field() {
    let document = object(vec![("name", text("Groceries")), ("limit_amount", number(300.0))]);
    assert_eq!(
        decode_create_bucket(&document),
        Err(DecodeError::MissingField(Field::CurrentAmount))
    );
    let document = object(vec![("limit_amount", number(300.0)), ("current_amount", number(0.0))]);
    assert_eq!(decode_create_bucket(&document), Err(DecodeError::MissingField(Field::Name)));
    assert_eq!(decode_create_bucket(&object(Vec::new())), Err(DecodeError::MissingField(Field::Name)));
}

#[test]
fn create_bucket_refuses_a_field_of_the_wrong_type() {
    let document = object(vec![
        ("name", integer(5)),
        ("limit_amount", number(300.0)),
        ("current_amount", number(0.0)),
    ]);
    assert_eq!(decode_create_bucket(&document), Err(DecodeError::InvalidField(Field::Name)));
    let document = object(vec![
        ("name", text("Groceries")),
        ("limit_amount", text("300")),
        ("current_amount", number(0.0)),
    ]);
    assert_eq!(decode_create_bucket(&document), Err(DecodeError::InvalidField(Field::LimitAmount)));
    let document = object(vec![
        ("name", text("Groceries")),
        ("limit_amount", number(300.0)),
        ("current_amount", JsonValue::Array),
    ]);
    assert_eq!(
        decode_create_bucket(&document),
        Err(DecodeError::InvalidField(Field::CurrentAmount))
    );
}

#[test]
fn create_bucket_refuses_null_for_a_field() {
    let document = object(vec![
        ("name", JsonValue::Null),
        ("limit_amount", number(300.0)),
        ("current_amount", number(0.0)),
    ]);
    assert_eq!(decode_create_bucket(&document), Err(DecodeError::InvalidField(Field::Name)));
}

#[test]
fn create_bucket_reports_its_first_bad_field() {
    let document = object(vec![("current_amount", text("zero")), ("limit_amount", JsonValue::Bool(true))]);
    assert_eq!(decode_create_bucket(&document), Err(DecodeError::MissingField(Field::Name)));
    let document = object(vec![
        ("current_amount", text("zero")),
        ("limit_amount", JsonValue::Bool(true)),
        ("name", text("x")),
    ]);
    assert_eq!(decode_create_bucket(&document), Err(DecodeError::InvalidField(Field::LimitAmount)));
}

#[test]
fn a_body_that_is_no_json_is_malformed() {
    assert_eq!(decode_create_bucket(&JsonDocument::Malformed), Err(DecodeError::MalformedBody));
    assert_eq!(decode_update_bucket(&JsonDocument::Malformed), Err(DecodeError::MalformedBody));
    assert_eq!(decode_create_transaction(&JsonDocument::Malformed), Err(DecodeError::MalformedBody));
    assert_eq!(decode_update_transaction(&JsonDocument::Malformed), Err(DecodeError::MalformedBody));
    assert_eq!(decode_create_balance(&JsonDocument::Malformed), Err(DecodeError::MalformedBody));
    assert_eq!(decode_update_balance(&JsonDocument::Malformed), Err(DecodeError::MalformedBody));
}

#[test]
fn a_body_that_is_no_object_is_refused() {
    assert_eq!(decode_create_bucket(&JsonDocument::NotObject), Err(DecodeError::NotAnObject));
    assert_eq!(decode_update_bucket(&JsonDocument::NotObject), Err(DecodeError::NotAnObject));
    assert_eq!(decode_create_transaction(&JsonDocument::NotObject), Err(DecodeError::NotAnObject));
    assert_eq!(decode_update_transaction(&JsonDocument::NotObject), Err(DecodeError::NotAnObject));
    assert_eq!(decode_create_balance(&JsonDocument::NotObject), Err(DecodeError::NotAnObject));
    assert_eq!(decode_update_balance(&JsonDocument::NotObject), Err(DecodeError::NotAnObject));
}

#[test]
fn update_bucket_takes_any_subset() {
    assert_eq!(
        decode_update_bucket(&object(Vec::new())),
        Ok(UpdateBucket { name: None, limit_amount: None, current_amount: None })
    );
    assert_eq!(
        decode_update_bucket(&object(vec![("limit_amount", number(12.5))])),
        Ok(UpdateBucket { name: None, limit_amount: Some(amount(12.5)), current_amount: None })
    );
    assert_eq!(
        decode_update_bucket(&object(vec![
            ("name", text("Rent")),
            ("limit_amount", number(900.0)),
            ("current_amount", number(1.0)),
        ])),
        Ok(UpdateBucket {
            name: Some(String::from("Rent")),
            limit_amount: Some(amount(900.0)),
            current_amount: Some(amount(1.0)),
        })
    );
}

#[test]
fn update_bucket_takes_null_as_left_out() {
    assert_eq!(
        decode_update_bucket(&object(vec![("name", JsonValue::Null), ("current_amount", number(2.0))])),
        Ok(UpdateBucket { name: None, limit_amount: None, current_amount: Some(amount(2.0)) })
    );
}

#[test]
fn update_bucket_refuses_a_field_of_the_wrong_type() {
    assert_eq!(
        decode_update_bucket(&object(vec![("name", JsonValue::Bool(false))])),
        Err(DecodeError::InvalidField(Field::Name))
    );
    assert_eq!(
        decode_update_bucket(&object(vec![("current_amount", JsonValue::Object)])),
        Err(DecodeError::InvalidField(Field::CurrentAmount))
    );
}

#[test]
fn create_transaction_takes_amount_and_bucket() {
    assert_eq!(
        decode_create_transaction(&object(vec![("amount", number(19.99)), ("bucket_id", integer(2))])),
        Ok(CreateTransaction { amount: amount(19.99), bucket_id: 2 })
    );
}

#[test]
fn create_transaction_needs_an_integer_bucket() {
    assert_eq!(
        decode_create_transaction(&object(vec![("amount", number(19.99)), ("bucket_id", number(2.0))])),
        Err(DecodeError::InvalidField(Field::BucketId))
    );
    assert_eq!(
        decode_create_transaction(&object(vec![("amount", number(19.99)), ("bucket_id", text("2"))])),
        Err(DecodeError::InvalidField(Field::BucketId))
    );
    assert_eq!(
        decode_create_transaction(&object(vec![("amount", number(19.99))])),
        Err(DecodeError::MissingField(Field::BucketId))
    );
}

#[test]
fn create_transaction_needs_a_bucket_of_32_bits() {
    let just_fits = object(vec![("amount", number(1.0)), ("bucket_id", integer(2147483647))]);
    assert_eq!(
        decode_create_transaction(&just_fits),
        Ok(CreateTransaction { amount: amount(1.0), bucket_id: i32::MAX })
    );
    let lowest = object(vec![("amount", number(1.0)), ("bucket_id", integer(-2147483648))]);
    assert_eq!(
        decode_create_transaction(&lowest),
        Ok(CreateTransaction { amount: amount(1.0), bucket_id: i32::MIN })
    );
    let too_large = object(vec![("amount", number(1.0)), ("bucket_id", integer(2147483648))]);
    assert_eq!(
        decode_create_transaction(&too_large),
        Err(DecodeError::InvalidField(Field::BucketId))
    );
    let too_small = object(vec![("amount", number(1.0)), ("bucket_id", integer(-2147483649))]);
    assert_eq!(
        decode_create_transaction(&too_small),
        Err(DecodeError::InvalidField(Field::BucketId))
    );
}

#[test]
fn update_transaction_takes_any_subset() {
    assert_eq!(
        decode_update_transaction(&object(Vec::new())),
        Ok(UpdateTransaction { amount: None, bucket_id: None })
    );
    assert_eq!(
        decode_update_transaction(&object(vec![("bucket_id", integer(7))])),
        Ok(UpdateTransaction { amount: None, bucket_id: Some(7) })
    );
    assert_eq!(
        decode_update_transaction(&object(vec![("amount", integer(3)), ("bucket_id", JsonValue::Null)])),
        Ok(UpdateTransaction { amount: Some(amount(3.0)), bucket_id: None })
    );
    assert_eq!(
        decode_update_transaction(&object(vec![("bucket_id", number(7.5))])),
        Err(DecodeError::InvalidField(Field::BucketId))
    );
}

#[test]
fn create_balance_takes_its_three_fields() {
    let document = object(vec![
        ("amount", number(1000.0)),
        ("account_type", text("checking")),
        ("user_name", text("alice")),
    ]);
    assert_eq!(
        decode_create_balance(&document),
        Ok(CreateBalance {
            amount: amount(1000.0),
            account_type: String::from("checking"),
            user_name: String::from("alice"),
        })
    );
}

#[test]
fn create_balance_needs_every_field() {
    let document = object(vec![("amount", number(1000.0)), ("user_name", text("alice"))]);
    assert_eq!(
        decode_create_balance(&document),
        Err(DecodeError::MissingField(Field::AccountType))
    );
    let document = object(vec![("account_type", text("checking")), ("user_name", text("alice"))]);
    assert_eq!(decode_create_balance(&document), Err(DecodeError::MissingField(Field::Amount)));
    let document = object(vec![
        ("amount", number(1000.0)),
        ("account_type", text("checking")),
        ("user_name", integer(1)),
    ]);
    assert_eq!(decode_create_balance(&document), Err(DecodeError::InvalidField(Field::UserName)));
}

#[test]
fn update_balance_takes_any_subset() {
    assert_eq!(
        decode_update_balance(&object(vec![("user_name", text("bob"))])),
        Ok(UpdateBalance { amount: None, account_type: None, user_name: Some(String::from("bob")) })
    );
    assert_eq!(
        decode_update_balance(&object(Vec::new())),
        Ok(UpdateBalance { amount: None, account_type: None, user_name: None })
    );
    assert_eq!(
        decode_update_balance(&object(vec![("account_type", JsonValue::Array)])),
        Err(DecodeError::InvalidField(Field::AccountType))
    );
}

#[test]
fn a_key_written_twice_counts_once_with_its_last_value() {
    let document = object(vec![
        ("amount", text("first")),
        ("bucket_id", integer(1)),
        ("amount", number(2.0)),
    ]);
    assert_eq!(
        decode_create_transaction(&document),
        Ok(CreateTransaction { amount: amount(2.0), bucket_id: 1 })
    );
}
