//! The ledger's entities and the payloads that create and update them.
//!
//! Every type that holds text has a view in which the text is a `Seq<char>`;
//! contracts throughout the crate are stated over those views. Types that hold
//! no text are their own view.

use chrono::NaiveDateTime;
use vstd::prelude::*;

verus! {

/// A monetary amount, carried as the bit pattern of an IEEE 754 binary64
/// number. The library never computes with amounts: it moves them between
/// payloads, statements and rows, bit for bit.
#[derive(Clone, Copy, Debug, PartialEq, Eq, Structural)]
pub struct Amount {
    pub bits: u64,
}

impl Amount {
    /// The amount with the given bit pattern.
    pub fn from_bits(bits: u64) -> (amount: Amount)
        ensures
            amount.bits == bits,
    {
        Amount { bits }
    }

    /// The bit pattern of this amount.
    pub fn to_bits(&self) -> (bits: u64)
        ensures
            bits == self.bits,
    {
        self.bits
    }
}

impl View for Amount {
    type V = Amount;

    open spec fn view(&self) -> Amount {
        *self
    }
}

impl DeepView for Amount {
    type V = Amount;

    open spec fn deep_view(&self) -> Amount {
        *self
    }
}

/// A date and time without a time zone, as the store assigns it. The
/// library never looks into one: it carries it from a row to an entity.
///
/// This declares `chrono::NaiveDateTime` to the verifier as a type whose
/// values are opaque. Nothing is claimed of it.
#[verifier::external_type_specification]
#[verifier::external_body]
pub struct ExNaiveDateTime(chrono::NaiveDateTime);

/// `chrono::NaiveDateTime` is a `Copy` type whose `Clone` is derived: a clone
/// of a date and time is that date and time.
pub assume_specification[ <chrono::NaiveDateTime as Clone>::clone ](
    value: &chrono::NaiveDateTime,
) -> (copy: chrono::NaiveDateTime)
    ensures
        copy == *value,
;

/// A budget envelope.
#[derive(Clone, Debug, PartialEq, Eq)]
pub struct Bucket {
    pub id: i32,
    pub name: String,
    pub limit_amount: Amount,
    pub current_amount: Amount,
    pub created_at: NaiveDateTime,
    pub updated_at: NaiveDateTime,
}

/// What a [`Bucket`] is in contracts.
pub struct BucketView {
    pub id: i32,
    pub name: Seq<char>,
    pub limit_amount: Amount,
    pub current_amount: Amount,
    pub created_at: NaiveDateTime,
    pub updated_at: NaiveDateTime,
}

impl View for Bucket {
    type V = BucketView;

    open spec fn view(&self) -> BucketView {
        BucketView {
            id: self.id,
            name: self.name@,
            limit_amount: self.limit_amount,
            current_amount: self.current_amount,
            created_at: self.created_at,
            updated_at: self.updated_at,
        }
    }
}

impl DeepView for Bucket {
    type V = BucketView;

    open spec fn deep_view(&self) -> BucketView {
        self@
    }
}

/// One spend against exactly one bucket.
#[derive(Clone, Copy, Debug, PartialEq, Eq)]
pub struct Transaction {
    pub id: i32,
    pub amount: Amount,
    pub date: NaiveDateTime,
    /// The id of the bucket that the spend counts against.
    pub bucket_id: i32,
}

impl View for Transaction {
    type V = Transaction;

    open spec fn view(&self) -> Transaction {
        *self
    }
}

impl DeepView for Transaction {
    type V = Transaction;

    open spec fn deep_view(&self) -> Transaction {
        *self
    }
}

/// A free-standing account snapshot.
#[derive(Clone, Debug, PartialEq, Eq)]
pub struct Balance {
    pub id: i32,
    pub amount: Amount,
    pub account_type: String,
    pub user_name: String,
}

/// What a [`Balance`] is in contracts.
pub struct BalanceView {
    pub id: i32,
    pub amount: Amount,
    pub account_type: Seq<char>,
    pub user_name: Seq<char>,
}

impl View for Balance {
    type V = BalanceView;

    open spec fn view(&self) -> BalanceView {
        BalanceView {
            id: self.id,
            amount: self.amount,
            account_type: self.account_type@,
            user_name: self.user_name@,
        }
    }
}

impl DeepView for Balance {
    type V = BalanceView;

    open spec fn deep_view(&self) -> BalanceView {
        self@
    }
}

/// The fields that a client supplies to create a bucket.
#[derive(Clone, Debug, PartialEq, Eq)]
pub struct CreateBucket {
    pub name: String,
    pub limit_amount: Amount,
    pub current_amount: Amount,
}

/// What a [`CreateBucket`] is in contracts.
pub struct CreateBucketView {
    pub name: Seq<char>,
    pub limit_amount: Amount,
    pub current_amount: Amount,
}

impl View for CreateBucket {
    type V = CreateBucketView;

    open spec fn view(&self) -> CreateBucketView {
        CreateBucketView {
            name: self.name@,
            limit_amount: self.limit_amount,
            current_amount: self.current_amount,
        }
    }
}

impl DeepView for CreateBucket {
    type V = CreateBucketView;

    open spec fn deep_view(&self) -> CreateBucketView {
        self@
    }
}

/// The fields that a client supplies to create a transaction.
#[derive(Clone, Copy, Debug, PartialEq, Eq, Structural)]
pub struct CreateTransaction {
    pub amount: Amount,
    pub bucket_id: i32,
}

impl View for CreateTransaction {
    type V = CreateTransaction;

    open spec fn view(&self) -> CreateTransaction {
        *self
    }
}

impl DeepView for CreateTransaction {
    type V = CreateTransaction;

    open spec fn deep_view(&self) -> CreateTransaction {
        self@
    }
}

/// The fields that a client supplies to create a balance.
#[derive(Clone, Debug, PartialEq, Eq)]
pub struct CreateBalance {
    pub amount: Amount,
    pub account_type: String,
    pub user_name: String,
}

/// What a [`CreateBalance`] is in contracts.
pub struct CreateBalanceView {
    pub amount: Amount,
    pub account_type: Seq<char>,
    pub user_name: Seq<char>,
}

impl View for CreateBalance {
    type V = CreateBalanceView;

    open spec fn view(&self) -> CreateBalanceView {
        CreateBalanceView {
            amount: self.amount,
            account_type: self.account_type@,
            user_name: self.user_name@,
        }
    }
}

impl DeepView for CreateBalance {
    type V = CreateBalanceView;

    open spec fn deep_view(&self) -> CreateBalanceView {
        self@
    }
}

/// The fields of a transaction that an update may supply. `None` is a field
/// that the client left out.
#[derive(Clone, Copy, Debug, PartialEq, Eq, Structural)]
pub struct UpdateTransaction {
    pub amount: Option<Amount>,
    pub bucket_id: Option<i32>,
}

impl View for UpdateTransaction {
    type V = UpdateTransaction;

    open spec fn view(&self) -> UpdateTransaction {
        *self
    }
}

impl DeepView for UpdateTransaction {
    type V = UpdateTransaction;

    open spec fn deep_view(&self) -> UpdateTransaction {
        self@
    }
}

/// The fields of a balance that an update may supply. `None` is a field that
/// the client left out.
#[derive(Clone, Debug, PartialEq, Eq)]
pub struct UpdateBalance {
    pub amount: Option<Amount>,
    pub account_type: Option<String>,
    pub user_name: Option<String>,
}

/// What an [`UpdateBalance`] is in contracts.
pub struct UpdateBalanceView {
    pub amount: Option<Amount>,
    pub account_type: Option<Seq<char>>,
    pub user_name: Option<Seq<char>>,
}

impl View for UpdateBalance {
    type V = UpdateBalanceView;

    open spec fn view(&self) -> UpdateBalanceView {
        UpdateBalanceView {
            amount: self.amount,
            account_type: self.account_type.deep_view(),
            user_name: self.user_name.deep_view(),
        }
    }
}

impl DeepView for UpdateBalance {
    type V = UpdateBalanceView;

    open spec fn deep_view(&self) -> UpdateBalanceView {
        self@
    }
}

/// The fields of a bucket that an update may supply. `None` is a field that
/// the client left out.
#[derive(Clone, Debug, PartialEq, Eq)]
pub struct UpdateBucket {
    pub name: Option<String>,
    pub limit_amount: Option<Amount>,
    pub current_amount: Option<Amount>,
}

/// What an [`UpdateBucket`] is in contracts.
pub struct UpdateBucketView {
    pub name: Option<Seq<char>>,
    pub limit_amount: Option<Amount>,
    pub current_amount: Option<Amount>,
}

impl View for UpdateBucket {
    type V = UpdateBucketView;

    open spec fn view(&self) -> UpdateBucketView {
        UpdateBucketView {
            name: self.name.deep_view(),
            limit_amount: self.limit_amount,
            current_amount: self.current_amount,
        }
    }
}

impl DeepView for UpdateBucket {
    type V = UpdateBucketView;

    open spec fn deep_view(&self) -> UpdateBucketView {
        self@
    }
}

} // verus!
