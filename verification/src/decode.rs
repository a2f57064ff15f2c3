//! Decoding: from a parsed request body to the typed payload of an endpoint.
//!
//! A payload that creates an entity needs every field, each of its type. A
//! payload that updates one may leave any field out, or give it as `null`;
//! both are a field that is not supplied. Members that no field of the
//! payload is named after are not looked at. The fields are checked in the
//! order in which the payload declares them, and the first one that fails
//! decides the error.

use vstd::prelude::*;
use crate::json::{find, member, JsonDocument, JsonDocumentView, JsonMember, JsonMemberView, JsonValue,
    JsonValueView};
use crate::models::{Amount, CreateBalance, CreateBalanceView, CreateBucket, CreateBucketView,
    CreateTransaction, UpdateBalance, UpdateBalanceView, UpdateBucket, UpdateBucketView,
    UpdateTransaction};

verus! {

/// A field of a payload.
#[derive(Clone, Copy, Debug, PartialEq, Eq, Structural)]
pub enum Field {
    Name,
    LimitAmount,
    CurrentAmount,
    Amount,
    BucketId,
    AccountType,
    UserName,
}

/// The key under which a field stands in a request body.
pub open spec fn field_key(field: Field) -> Seq<char> {
    match field {
        Field::Name => "name"@,
        Field::LimitAmount => "limit_amount"@,
        Field::CurrentAmount => "current_amount"@,
        Field::Amount => "amount"@,
        Field::BucketId => "bucket_id"@,
        Field::AccountType => "account_type"@,
        Field::UserName => "user_name"@,
    }
}

/// The key under which `field` stands in a request body.
pub fn key_of(field: Field) -> (key: &'static str)
    ensures
        key@ == field_key(field),
{
    match field {
        Field::Name => "name",
        Field::LimitAmount => "limit_amount",
        Field::CurrentAmount => "current_amount",
        Field::Amount => "amount",
        Field::BucketId => "bucket_id",
        Field::AccountType => "account_type",
        Field::UserName => "user_name",
    }
}

/// Why a request could not be decoded. A request that fails here never
/// reaches the store.
#[derive(Clone, Copy, Debug, PartialEq, Eq, Structural)]
pub enum DecodeError {
    /// The id in the path is not an integer of 32 bits.
    InvalidId,
    /// The body is not JSON.
    MalformedBody,
    /// The body is JSON, but not an object.
    NotAnObject,
    /// A field that the payload needs is not in the body.
    MissingField(Field),
    /// A field is in the body with a value of the wrong type.
    InvalidField(Field),
}

/// What a result of decoding is in contracts: the view of the payload, or
/// the error.
pub open spec fn decoded<T: DeepView>(result: Result<T, DecodeError>) -> Result<T::V, DecodeError> {
    match result {
        Ok(value) => Ok(value.deep_view()),
        Err(error) => Err(error),
    }
}

/// The text that `value` holds: that of a JSON string, and of nothing else.
pub open spec fn text_of(value: JsonValueView) -> Option<Seq<char>> {
    match value {
        JsonValueView::Text(text) => Some(text),
        _ => None,
    }
}

/// The amount that `value` holds: that of any JSON number, and of nothing
/// else.
pub open spec fn amount_of(value: JsonValueView) -> Option<Amount> {
    match value {
        JsonValueView::Number(number) => Some(number.amount),
        _ => None,
    }
}

/// The id that `value` holds: that of a JSON number that is an integer of 32
/// bits, and of nothing else.
pub open spec fn id_of(value: JsonValueView) -> Option<i32> {
    match value {
        JsonValueView::Number(number) => match number.integer {
            Some(v) => if i32::MIN <= v <= i32::MAX {
                Some(v as i32)
            } else {
                None
            },
            None => None,
        },
        _ => None,
    }
}

fn text_in(value: &JsonValue) -> (text: Option<String>)
    ensures
        text.deep_view() == text_of(value@),
{
    match value {
        JsonValue::Text(text) => Some(text.clone()),
        _ => None,
    }
}

fn amount_in(value: &JsonValue) -> (amount: Option<Amount>)
    ensures
        amount == amount_of(value@),
{
    match value {
        JsonValue::Number(number) => Some(number.amount),
        _ => None,
    }
}

fn id_in(value: &JsonValue) -> (id: Option<i32>)
    ensures
        id == id_of(value@),
{
    match value {
        JsonValue::Number(number) => match number.integer {
            Some(v) => if -2147483648 <= v && v <= 2147483647 {
                Some(v as i32)
            } else {
                None
            },
            None => None,
        },
        _ => None,
    }
}

/// The text of a field that the payload needs.
pub open spec fn required_text(members: Seq<JsonMemberView>, field: Field) -> Result<
    Seq<char>,
    DecodeError,
> {
    match member(members, field_key(field)) {
        None => Err(DecodeError::MissingField(field)),
        Some(value) => match text_of(value) {
            Some(text) => Ok(text),
            None => Err(DecodeError::InvalidField(field)),
        },
    }
}

/// The amount of a field that the payload needs.
pub open spec fn required_amount(members: Seq<JsonMemberView>, field: Field) -> Result<
    Amount,
    DecodeError,
> {
    match member(members, field_key(field)) {
        None => Err(DecodeError::MissingField(field)),
        Some(value) => match amount_of(value) {
            Some(amount) => Ok(amount),
            None => Err(DecodeError::InvalidField(field)),
        },
    }
}

/// The id of a field that the payload needs.
pub open spec fn required_id(members: Seq<JsonMemberView>, field: Field) -> Result<
    i32,
    DecodeError,
> {
    match member(members, field_key(field)) {
        None => Err(DecodeError::MissingField(field)),
        Some(value) => match id_of(value) {
            Some(id) => Ok(id),
            None => Err(DecodeError::InvalidField(field)),
        },
    }
}

/// The text of a field that the payload may leave out.
pub open spec fn optional_text(members: Seq<JsonMemberView>, field: Field) -> Result<
    Option<Seq<char>>,
    DecodeError,
> {
    match member(members, field_key(field)) {
        None => Ok(None),
        Some(JsonValueView::Null) => Ok(None),
        Some(value) => match text_of(value) {
            Some(text) => Ok(Some(text)),
            None => Err(DecodeError::InvalidField(field)),
        },
    }
}

/// The amount of a field that the payload may leave out.
pub open spec fn optional_amount(members: Seq<JsonMemberView>, field: Field) -> Result<
    Option<Amount>,
    DecodeError,
> {
    match member(members, field_key(field)) {
        None => Ok(None),
        Some(JsonValueView::Null) => Ok(None),
        Some(value) => match amount_of(value) {
            Some(amount) => Ok(Some(amount)),
            None => Err(DecodeError::InvalidField(field)),
        },
    }
}

/// The id of a field that the payload may leave out.
pub open spec fn optional_id(members: Seq<JsonMemberView>, field: Field) -> Result<
    Option<i32>,
    DecodeError,
> {
    match member(members, field_key(field)) {
        None => Ok(None),
        Some(JsonValueView::Null) => Ok(None),
        Some(value) => match id_of(value) {
            Some(id) => Ok(Some(id)),
            None => Err(DecodeError::InvalidField(field)),
        },
    }
}

fn take_text(members: &Vec<JsonMember>, field: Field) -> (result: Result<String, DecodeError>)
    ensures
        decoded(result) == required_text(members.deep_view(), field),
{
    match find(members, key_of(field)) {
        None => Err(DecodeError::MissingField(field)),
        Some(value) => match text_in(value) {
            Some(text) => Ok(text),
            None => Err(DecodeError::InvalidField(field)),
        },
    }
}

fn take_amount(members: &Vec<JsonMember>, field: Field) -> (result: Result<Amount, DecodeError>)
    ensures
        decoded(result) == required_amount(members.deep_view(), field),
{
    match find(members, key_of(field)) {
        None => Err(DecodeError::MissingField(field)),
        Some(value) => match amount_in(value) {
            Some(amount) => Ok(amount),
            None => Err(DecodeError::InvalidField(field)),
        },
    }
}

fn take_id(members: &Vec<JsonMember>, field: Field) -> (result: Result<i32, DecodeError>)
    ensures
        decoded(result) == required_id(members.deep_view(), field),
{
    match find(members, key_of(field)) {
        None => Err(DecodeError::MissingField(field)),
        Some(value) => match id_in(value) {
            Some(id) => Ok(id),
            None => Err(DecodeError::InvalidField(field)),
        },
    }
}

fn maybe_text(members: &Vec<JsonMember>, field: Field) -> (result: Result<
    Option<String>,
    DecodeError,
>)
    ensures
        decoded(result) == optional_text(members.deep_view(), field),
{
    match find(members, key_of(field)) {
        None => Ok(None),
        Some(JsonValue::Null) => Ok(None),
        Some(value) => match text_in(value) {
            Some(text) => Ok(Some(text)),
            None => Err(DecodeError::InvalidField(field)),
        },
    }
}

fn maybe_amount(members: &Vec<JsonMember>, field: Field) -> (result: Result<
    Option<Amount>,
    DecodeError,
>)
    ensures
        decoded(result) == optional_amount(members.deep_view(), field),
{
    match find(members, key_of(field)) {
        None => Ok(None),
        Some(JsonValue::Null) => Ok(None),
        Some(value) => match amount_in(value) {
            Some(amount) => Ok(Some(amount)),
            None => Err(DecodeError::InvalidField(field)),
        },
    }
}

fn maybe_id(members: &Vec<JsonMember>, field: Field) -> (result: Result<Option<i32>, DecodeError>)
    ensures
        decoded(result) == optional_id(members.deep_view(), field),
{
    match find(members, key_of(field)) {
        None => Ok(None),
        Some(JsonValue::Null) => Ok(None),
        Some(value) => match id_in(value) {
            Some(id) => Ok(Some(id)),
            None => Err(DecodeError::InvalidField(field)),
        },
    }
}

/// The members of a body that is a JSON object.
pub open spec fn members_of(document: JsonDocumentView) -> Result<
    Seq<JsonMemberView>,
    DecodeError,
> {
    match document {
        JsonDocumentView::Malformed => Err(DecodeError::MalformedBody),
        JsonDocumentView::NotObject => Err(DecodeError::NotAnObject),
        JsonDocumentView::Object(members) => Ok(members),
    }
}

fn members_in(document: &JsonDocument) -> (result: Result<&Vec<JsonMember>, DecodeError>)
    ensures
        decoded(result) == members_of(document@),
{
    match document {
        JsonDocument::Malformed => Err(DecodeError::MalformedBody),
        JsonDocument::NotObject => Err(DecodeError::NotAnObject),
        JsonDocument::Object(members) => Ok(members),
    }
}

/// The payload that creates a bucket: `name` as text, `limit_amount` and
/// `current_amount` as numbers, all three present.
pub open spec fn create_bucket_of(document: JsonDocumentView) -> Result<
    CreateBucketView,
    DecodeError,
> {
    match members_of(document) {
        Err(e) => Err(e),
        Ok(members) => match required_text(members, Field::Name) {
            Err(e) => Err(e),
            Ok(name) => match required_amount(members, Field::LimitAmount) {
                Err(e) => Err(e),
                Ok(limit_amount) => match required_amount(members, Field::CurrentAmount) {
                    Err(e) => Err(e),
                    Ok(current_amount) => Ok(
                        CreateBucketView { name, limit_amount, current_amount },
                    ),
                },
            },
        },
    }
}

/// Decodes the body of `POST /buckets`.
pub fn decode_create_bucket(document: &JsonDocument) -> (result: Result<CreateBucket, DecodeError>)
    ensures
        decoded(result) == create_bucket_of(document@),
{
    let members = match members_in(document) {
        Ok(members) => members,
        Err(error) => return Err(error),
    };
    let name = match take_text(members, Field::Name) {
        Ok(value) => value,
        Err(error) => return Err(error),
    };
    let limit_amount = match take_amount(members, Field::LimitAmount) {
        Ok(value) => value,
        Err(error) => return Err(error),
    };
    let current_amount = match take_amount(members, Field::CurrentAmount) {
        Ok(value) => value,
        Err(error) => return Err(error),
    };
    Ok(CreateBucket { name, limit_amount, current_amount })
}

/// The payload that updates a bucket: `name` as text, `limit_amount` and
/// `current_amount` as numbers, each of them present, `null` or left out.
pub open spec fn update_bucket_of(document: JsonDocumentView) -> Result<
    UpdateBucketView,
    DecodeError,
> {
    match members_of(document) {
        Err(e) => Err(e),
        Ok(members) => match optional_text(members, Field::Name) {
            Err(e) => Err(e),
            Ok(name) => match optional_amount(members, Field::LimitAmount) {
                Err(e) => Err(e),
                Ok(limit_amount) => match optional_amount(members, Field::CurrentAmount) {
                    Err(e) => Err(e),
                    Ok(current_amount) => Ok(
                        UpdateBucketView { name, limit_amount, current_amount },
                    ),
                },
            },
        },
    }
}

/// Decodes the body of `PUT /buckets/{id}`.
pub fn decode_update_bucket(document: &JsonDocument) -> (result: Result<UpdateBucket, DecodeError>)
    ensures
        decoded(result) == update_bucket_of(document@),
{
    let members = match members_in(document) {
        Ok(members) => members,
        Err(error) => return Err(error),
    };
    let name = match maybe_text(members, Field::Name) {
        Ok(value) => value,
        Err(error) => return Err(error),
    };
    let limit_amount = match maybe_amount(members, Field::LimitAmount) {
        Ok(value) => value,
        Err(error) => return Err(error),
    };
    let current_amount = match maybe_amount(members, Field::CurrentAmount) {
        Ok(value) => value,
        Err(error) => return Err(error),
    };
    Ok(UpdateBucket { name, limit_amount, current_amount })
}

/// The payload that creates a transaction: `amount` as a number and
/// `bucket_id` as an integer, both present.
pub open spec fn create_transaction_of(document: JsonDocumentView) -> Result<
    CreateTransaction,
    DecodeError,
> {
    match members_of(document) {
        Err(e) => Err(e),
        Ok(members) => match required_amount(members, Field::Amount) {
            Err(e) => Err(e),
            Ok(amount) => match required_id(members, Field::BucketId) {
                Err(e) => Err(e),
                Ok(bucket_id) => Ok(CreateTransaction { amount, bucket_id }),
            },
        },
    }
}

/// Decodes the body of `POST /transactions`.
pub fn decode_create_transaction(document: &JsonDocument) -> (result: Result<
    CreateTransaction,
    DecodeError,
>)
    ensures
        decoded(result) == create_transaction_of(document@),
{
    let members = match members_in(document) {
        Ok(members) => members,
        Err(error) => return Err(error),
    };
    let amount = match take_amount(members, Field::Amount) {
        Ok(value) => value,
        Err(error) => return Err(error),
    };
    let bucket_id = match take_id(members, Field::BucketId) {
        Ok(value) => value,
        Err(error) => return Err(error),
    };
    Ok(CreateTransaction { amount, bucket_id })
}

/// The payload that updates a transaction: `amount` as a number and
/// `bucket_id` as an integer, each of them present, `null` or left out.
pub open spec fn update_transaction_of(document: JsonDocumentView) -> Result<
    UpdateTransaction,
    DecodeError,
> {
    match members_of(document) {
        Err(e) => Err(e),
        Ok(members) => match optional_amount(members, Field::Amount) {
            Err(e) => Err(e),
            Ok(amount) => match optional_id(members, Field::BucketId) {
                Err(e) => Err(e),
                Ok(bucket_id) => Ok(UpdateTransaction { amount, bucket_id }),
            },
        },
    }
}

/// Decodes the body of `PUT /transactions/{id}`.
pub fn decode_update_transaction(document: &JsonDocument) -> (result: Result<
    UpdateTransaction,
    DecodeError,
>)
    ensures
        decoded(result) == update_transaction_of(document@),
{
    let members = match members_in(document) {
        Ok(members) => members,
        Err(error) => return Err(error),
    };
    let amount = match maybe_amount(members, Field::Amount) {
        Ok(value) => value,
        Err(error) => return Err(error),
    };
    let bucket_id = match maybe_id(members, Field::BucketId) {
        Ok(value) => value,
        Err(error) => return Err(error),
    };
    Ok(UpdateTransaction { amount, bucket_id })
}

/// The payload that creates a balance: `amount` as a number, `account_type`
/// and `user_name` as text, all three present.
pub open spec fn create_balance_of(document: JsonDocumentView) -> Result<
    CreateBalanceView,
    DecodeError,
> {
    match members_of(document) {
        Err(e) => Err(e),
        Ok(members) => match required_amount(members, Field::Amount) {
            Err(e) => Err(e),
            Ok(amount) => match required_text(members, Field::AccountType) {
                Err(e) => Err(e),
                Ok(account_type) => match required_text(members, Field::UserName) {
                    Err(e) => Err(e),
                    Ok(user_name) => Ok(CreateBalanceView { amount, account_type, user_name }),
                },
            },
        },
    }
}

/// Decodes the body of `POST /balance`.
pub fn decode_create_balance(document: &JsonDocument) -> (result: Result<
    CreateBalance,
    DecodeError,
>)
    ensures
        decoded(result) == create_balance_of(document@),
{
    let members = match members_in(document) {
        Ok(members) => members,
        Err(error) => return Err(error),
    };
    let amount = match take_amount(members, Field::Amount) {
        Ok(value) => value,
        Err(error) => return Err(error),
    };
    let account_type = match take_text(members, Field::AccountType) {
        Ok(value) => value,
        Err(error) => return Err(error),
    };
    let user_name = match take_text(members, Field::UserName) {
        Ok(value) => value,
        Err(error) => return Err(error),
    };
    Ok(CreateBalance { amount, account_type, user_name })
}

/// The payload that updates a balance: `amount` as a number, `account_type`
/// and `user_name` as text, each of them present, `null` or left out.
pub open spec fn update_balance_of(document: JsonDocumentView) -> Result<
    UpdateBalanceView,
    DecodeError,
> {
    match members_of(document) {
        Err(e) => Err(e),
        Ok(members) => match optional_amount(members, Field::Amount) {
            Err(e) => Err(e),
            Ok(amount) => match optional_text(members, Field::AccountType) {
                Err(e) => Err(e),
                Ok(account_type) => match optional_text(members, Field::UserName) {
                    Err(e) => Err(e),
                    Ok(user_name) => Ok(UpdateBalanceView { amount, account_type, user_name }),
                },
            },
        },
    }
}

/// Decodes the body of `PUT /balance/{id}`.
pub fn decode_update_balance(document: &JsonDocument) -> (result: Result<
    UpdateBalance,
    DecodeError,
>)
    ensures
        decoded(result) == update_balance_of(document@),
{
    let members = match members_in(document) {
        Ok(members) => members,
        Err(error) => return Err(error),
    };
    let amount = match maybe_amount(members, Field::Amount) {
        Ok(value) => value,
        Err(error) => return Err(error),
    };
    let account_type = match maybe_text(members, Field::AccountType) {
        Ok(value) => value,
        Err(error) => return Err(error),
    };
    let user_name = match maybe_text(members, Field::UserName) {
        Ok(value) => value,
        Err(error) => return Err(error),
    };
    Ok(UpdateBalance { amount, account_type, user_name })
}

} // verus!
