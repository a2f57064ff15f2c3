//! What holds of the service as a whole, proved from the contracts of its
//! parts.

use chrono::NaiveDateTime;
use vstd::prelude::*;
use crate::db::{balance_of_row, balance_of_rows, bucket_of_row, buckets_of_rows, is_null,
    lemma_buckets_row_by_row, lemma_transactions_row_by_row, transaction_of_row,
    transactions_of_rows, SqlValueView};
use crate::decode::{field_key, DecodeError, Field};
use crate::handlers::{failure, BodyView, ResponseView, INTERNAL_SERVER_ERROR, OK};
use crate::json::{lemma_member_of_another_key, member, JsonDocumentView, JsonMemberView,
    JsonValueView};
use crate::models::{BalanceView, BucketView, CreateBalanceView, CreateBucketView,
    CreateTransaction, Transaction};
use crate::router::{Endpoint, Resource};
use crate::text::decimal_text;
use crate::service::{call_of, deletion, modification, response_to_command, response_to_query,
    statement_of_command, CommandView, Query};

verus! {

/// The row that the store holds once it has run the insert of a bucket: the
/// id and the timestamps that it assigned, and between them the three values
/// that the statement bound.
pub open spec fn stored_bucket_row(
    id: i32,
    bound: Seq<SqlValueView>,
    created_at: NaiveDateTime,
    updated_at: NaiveDateTime,
) -> Seq<SqlValueView> {
    seq![
        SqlValueView::Int(Some(id)),
        bound[0],
        bound[1],
        bound[2],
        SqlValueView::Timestamp(Some(created_at)),
        SqlValueView::Timestamp(Some(updated_at)),
    ]
}

/// The fields of a bucket that a client supplies are persisted unchanged and
/// come back from the listing. Whatever id and timestamps the store assigns,
/// the row that holds what the insert bound reads as a bucket with exactly
/// the supplied fields. Whatever rows stand before and after it, a listing
/// that reads well holds that bucket at the place of its row; and the listing
/// reads well where the rows before and after do.
pub proof fn law_created_bucket_is_listed(
    payload: CreateBucketView,
    id: i32,
    created_at: NaiveDateTime,
    updated_at: NaiveDateTime,
    before: Seq<Seq<SqlValueView>>,
    after: Seq<Seq<SqlValueView>>,
)
    ensures
        ({
            let row = stored_bucket_row(
                id,
                statement_of_command(CommandView::CreateBucket(payload)).params,
                created_at,
                updated_at,
            );
            let rows = before.push(row) + after;
            let bucket = BucketView {
                id,
                name: payload.name,
                limit_amount: payload.limit_amount,
                current_amount: payload.current_amount,
                created_at,
                updated_at,
            };
            &&& bucket_of_row(row) == Ok::<BucketView, Seq<char>>(bucket)
            &&& buckets_of_rows(before) is Ok && buckets_of_rows(after) is Ok
                ==> buckets_of_rows(rows) is Ok
            &&& buckets_of_rows(rows) matches Ok(buckets) ==> {
                &&& buckets.len() == before.len() + 1 + after.len()
                &&& buckets[before.len() as int] == bucket
                &&& response_to_query(Query::Buckets, Ok(rows)) == (ResponseView {
                    status: OK,
                    body: BodyView::Buckets(buckets),
                })
            }
        }),
{
    let row = stored_bucket_row(
        id,
        statement_of_command(CommandView::CreateBucket(payload)).params,
        created_at,
        updated_at,
    );
    let rows = before.push(row) + after;
    lemma_buckets_row_by_row(rows);
    assert(rows[before.len() as int] == row);
    if buckets_of_rows(before) is Ok && buckets_of_rows(after) is Ok {
        lemma_buckets_row_by_row(before);
        lemma_buckets_row_by_row(after);
    }
}

/// The row that the store holds once it has run the insert of a transaction:
/// the id and the date that it assigned, and the two values that the
/// statement bound.
pub open spec fn stored_transaction_row(
    id: i32,
    bound: Seq<SqlValueView>,
    date: NaiveDateTime,
) -> Seq<SqlValueView> {
    seq![SqlValueView::Int(Some(id)), bound[0], SqlValueView::Timestamp(Some(date)), bound[1]]
}

/// The fields of a transaction that a client supplies are persisted unchanged
/// and come back from the listing, whatever id and date the store assigns
/// and whatever rows stand before and after its row; and the listing reads
/// well where the rows before and after do.
pub proof fn law_created_transaction_is_listed(
    payload: CreateTransaction,
    id: i32,
    date: NaiveDateTime,
    before: Seq<Seq<SqlValueView>>,
    after: Seq<Seq<SqlValueView>>,
)
    ensures
        ({
            let row = stored_transaction_row(
                id,
                statement_of_command(CommandView::CreateTransaction(payload)).params,
                date,
            );
            let rows = before.push(row) + after;
            let transaction = Transaction {
                id,
                amount: payload.amount,
                date,
                bucket_id: payload.bucket_id,
            };
            &&& transaction_of_row(row) == Ok::<Transaction, Seq<char>>(transaction)
            &&& transactions_of_rows(before) is Ok && transactions_of_rows(after) is Ok
                ==> transactions_of_rows(rows) is Ok
            &&& transactions_of_rows(rows) matches Ok(transactions) ==> {
                &&& transactions.len() == before.len() + 1 + after.len()
                &&& transactions[before.len() as int] == transaction
                &&& response_to_query(Query::Transactions, Ok(rows)) == (ResponseView {
                    status: OK,
                    body: BodyView::Transactions(transactions),
                })
            }
        }),
{
    let row = stored_transaction_row(
        id,
        statement_of_command(CommandView::CreateTransaction(payload)).params,
        date,
    );
    let rows = before.push(row) + after;
    lemma_transactions_row_by_row(rows);
    assert(rows[before.len() as int] == row);
    if transactions_of_rows(before) is Ok && transactions_of_rows(after) is Ok {
        lemma_transactions_row_by_row(before);
        lemma_transactions_row_by_row(after);
    }
}

/// The row that the store holds once it has run the insert of a balance: the
/// id that it assigned, and the three values that the statement bound.
pub open spec fn stored_balance_row(id: i32, bound: Seq<SqlValueView>) -> Seq<SqlValueView> {
    seq![SqlValueView::Int(Some(id)), bound[0], bound[1], bound[2]]
}

/// The fields of a balance that a client supplies are persisted unchanged and
/// come back when the balance is read: where the row that holds what the
/// insert bound is the only row, the balance is read with 200 and holds
/// exactly the supplied fields, whatever id the store assigns.
pub proof fn law_created_balance_is_read(payload: CreateBalanceView, id: i32)
    ensures
        ({
            let row = stored_balance_row(
                id,
                statement_of_command(CommandView::CreateBalance(payload)).params,
            );
            let balance = BalanceView {
                id,
                amount: payload.amount,
                account_type: payload.account_type,
                user_name: payload.user_name,
            };
            &&& balance_of_row(row) == Ok::<BalanceView, Seq<char>>(balance)
            &&& balance_of_rows(seq![row]) == Ok::<BalanceView, Seq<char>>(balance)
            &&& response_to_query(Query::Balance, Ok(seq![row])) == (ResponseView {
                status: OK,
                body: BodyView::Balance(balance),
            })
        }),
{
}

/// Deleting the same id twice is answered alike both times: the statement
/// depends on the resource and the id alone, and the answer to a statement
/// that the store ran does not depend on how many rows it removed. The second
/// delete, which removes none, is answered with the same 200 and the same
/// message as the first.
pub proof fn law_delete_twice_is_answered_alike(
    resource: Resource,
    id: i32,
    removed_first: u64,
    removed_second: u64,
)
    ensures
        response_to_command(deletion(resource, id), Ok(removed_first)) == response_to_command(
            deletion(resource, id),
            Ok(removed_second),
        ),
        response_to_command(deletion(resource, id), Ok(removed_first)).status == OK,
        statement_of_command(deletion(resource, id)).params == seq![SqlValueView::Int(Some(id))],
{
}

/// Whether `command` updates an entity.
pub open spec fn is_update(command: CommandView) -> bool {
    command is UpdateBucket || command is UpdateTransaction || command is UpdateBalance
}

/// The id of the entity that an update addresses.
pub open spec fn updated_id(command: CommandView) -> i32 {
    match command {
        CommandView::UpdateBucket(id, _) => id,
        CommandView::UpdateTransaction(id, _) => id,
        CommandView::UpdateBalance(id, _) => id,
        _ => 0,
    }
}

/// The settable fields of the entity that an update addresses, in the order
/// of its payload, each as the value that the payload supplies or as nothing.
pub open spec fn supplied_fields(command: CommandView) -> Seq<SqlValueView> {
    match command {
        CommandView::UpdateBucket(_, payload) => seq![
            SqlValueView::Text(payload.name),
            SqlValueView::Double(payload.limit_amount),
            SqlValueView::Double(payload.current_amount),
        ],
        CommandView::UpdateTransaction(_, payload) => seq![
            SqlValueView::Double(payload.amount),
            SqlValueView::Int(payload.bucket_id),
        ],
        CommandView::UpdateBalance(_, payload) => seq![
            SqlValueView::Double(payload.amount),
            SqlValueView::Text(payload.account_type),
            SqlValueView::Text(payload.user_name),
        ],
        _ => Seq::empty(),
    }
}

/// An update of any of the three resources writes every settable column: the
/// statement binds one value for each settable field, in order, then the id.
/// A field that the payload supplies is bound as supplied; a field that it
/// leaves out is bound as NULL, and only such a field is.
pub proof fn law_update_writes_every_column(command: CommandView)
    requires
        is_update(command),
    ensures
        statement_of_command(command).params == supplied_fields(command).push(
            SqlValueView::Int(Some(updated_id(command))),
        ),
        forall|k: int|
            0 <= k < supplied_fields(command).len() ==> (is_null(
                #[trigger] statement_of_command(command).params[k],
            ) <==> is_null(supplied_fields(command)[k])),
{
}

/// The settable fields of a resource, in the order in which an update writes
/// their columns.
pub open spec fn settable_fields(resource: Resource) -> Seq<Field> {
    match resource {
        Resource::Bucket => seq![Field::Name, Field::LimitAmount, Field::CurrentAmount],
        Resource::Transaction => seq![Field::Amount, Field::BucketId],
        Resource::Balance => seq![Field::Amount, Field::AccountType, Field::UserName],
    }
}

/// Whether the body of an update leaves a field out: the object has no such
/// member, or has it as `null`.
pub open spec fn left_out(members: Seq<JsonMemberView>, field: Field) -> bool {
    member(members, field_key(field)) is None || member(members, field_key(field)) == Some(
        JsonValueView::Null,
    )
}

/// The policy for fields that a body leaves out is one and the same for
/// buckets, transactions and balances: wherever the body of an update is
/// accepted, the column of each settable field is written, as NULL where the
/// body leaves the field out and as a value where it does not. No field
/// keeps what the row held.
pub proof fn law_field_left_out_is_written_null(
    resource: Resource,
    id: i32,
    members: Seq<JsonMemberView>,
    command: CommandView,
    k: int,
)
    requires
        modification(resource, id, JsonDocumentView::Object(members)) == Ok::<
            CommandView,
            DecodeError,
        >(command),
        0 <= k < settable_fields(resource).len(),
    ensures
        is_update(command),
        updated_id(command) == id,
        statement_of_command(command).params.len() == settable_fields(resource).len() + 1,
        is_null(statement_of_command(command).params[k]) <==> left_out(
            members,
            settable_fields(resource)[k],
        ),
{
}

/// Whether `key` is the key of no field of any payload.
pub open spec fn is_no_field(key: Seq<char>) -> bool {
    forall|field: Field| key != #[trigger] field_key(field)
}

/// What the store assigns is never taken from a client. A member that is
/// named after no field of a payload changes nothing about the call that a
/// body makes, wherever in the body it stands and whatever it holds; and
/// `id`, `created_at`, `updated_at` and `date` are such names.
pub proof fn law_store_assigned_fields_are_not_taken(
    endpoint: Endpoint,
    members: Seq<JsonMemberView>,
    at: int,
    other: JsonMemberView,
)
    requires
        0 <= at <= members.len(),
        is_no_field(other.key),
    ensures
        call_of(endpoint, JsonDocumentView::Object(members.insert(at, other))) == call_of(
            endpoint,
            JsonDocumentView::Object(members),
        ),
        is_no_field("id"@),
        is_no_field("created_at"@),
        is_no_field("updated_at"@),
        is_no_field("date"@),
{
    assert forall|field: Field|
        member(members.insert(at, other), #[trigger] field_key(field)) == member(
            members,
            field_key(field),
        ) by {
        lemma_member_of_another_key(members, at, other, field_key(field));
    }
    lemma_store_assigned_names_are_no_fields();
}

/// The names of the columns that the store assigns are the keys of no field.
proof fn lemma_store_assigned_names_are_no_fields()
    ensures
        is_no_field("id"@),
        is_no_field("created_at"@),
        is_no_field("updated_at"@),
        is_no_field("date"@),
{
    reveal_strlit("id");
    reveal_strlit("created_at");
    reveal_strlit("updated_at");
    reveal_strlit("date");
    reveal_strlit("name");
    reveal_strlit("limit_amount");
    reveal_strlit("current_amount");
    reveal_strlit("amount");
    reveal_strlit("bucket_id");
    reveal_strlit("account_type");
    reveal_strlit("user_name");
    assert forall|field: Field| "id"@ != #[trigger] field_key(field) by {
        assert("id"@.len() != field_key(field).len());
    }
    assert forall|field: Field| "created_at"@ != #[trigger] field_key(field) by {
        assert("created_at"@.len() != field_key(field).len());
    }
    assert forall|field: Field| "updated_at"@ != #[trigger] field_key(field) by {
        assert("updated_at"@.len() != field_key(field).len());
    }
    assert forall|field: Field| "date"@ != #[trigger] field_key(field) by {
        if field == Field::Name {
            assert("date"@[0] != "name"@[0]);
        }
    }
}

/// The context under which the failure of a command is reported.
pub open spec fn failure_context(command: CommandView) -> Seq<char> {
    match command {
        CommandView::CreateBucket(_) => "Database error"@,
        CommandView::UpdateBucket(_, _) => "Error updating bucket"@,
        CommandView::DeleteBucket(id) => "Error trying to delete bucket with id "@ + decimal_text(
            id as int,
        ),
        CommandView::CreateTransaction(_) => "Database error"@,
        CommandView::UpdateTransaction(_, _) => "Error updating transaction"@,
        CommandView::DeleteTransaction(id) => "Error trying to delete transaction with id "@
            + decimal_text(id as int),
        CommandView::CreateBalance(_) => "Database error"@,
        CommandView::UpdateBalance(_, _) => "Error updating transaction"@,
        CommandView::DeleteBalance(id) => "Error trying to delete balance with id "@
            + decimal_text(id as int),
    }
}

/// Every failure of the store comes back as a 500 whose envelope carries a
/// context and the store's message, for a command as for a query; no failure
/// is told apart from another. So a transaction for a bucket that does not
/// exist, which the store refuses, is answered with the store's refusal.
pub proof fn law_store_failure_is_reported(command: CommandView, query: Query, error: Seq<char>)
    ensures
        response_to_query(query, Err(error)) == failure("Database error"@, error),
        response_to_command(command, Err(error)) == failure(failure_context(command), error),
        failure(failure_context(command), error).status == INTERNAL_SERVER_ERROR,
{
}

} // verus!
