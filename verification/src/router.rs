//! The router: which endpoint a method and a path name.
//!
//! | method | path                 | endpoint            |
//! |--------|----------------------|---------------------|
//! | GET    | `/buckets`           | list the buckets    |
//! | POST   | `/buckets`           | create a bucket     |
//! | PUT    | `/buckets/{id}`      | update a bucket     |
//! | DELETE | `/buckets/{id}`      | delete a bucket     |
//!
//! and the same four under `/transactions` and under `/balance`.
//!
//! A path that names no collection and no item of one is not found, whatever
//! the method. A path that does, with a method that the table does not have
//! for it, is a method that is not allowed. Only then is the id read, so a bad
//! id under a method that is not allowed is reported as the method.

use vstd::prelude::*;
use crate::decode::DecodeError;
use crate::text::{chars_of, decimal_text, id_of_text, is_digit, law_id_text_reads_back,
    lemma_natural_text_reads_back, natural_text, parse_id_chars};

verus! {

/// The method of a request, as far as the router tells methods apart.
#[derive(Clone, Copy, Debug, PartialEq, Eq, Structural)]
pub enum Method {
    Get,
    Post,
    Put,
    Delete,
    /// Any other method.
    Other,
}

/// The three kinds of entity.
#[derive(Clone, Copy, Debug, PartialEq, Eq, Structural)]
pub enum Resource {
    Bucket,
    Transaction,
    Balance,
}

/// One row of the routing table, with the id where the path holds one.
#[derive(Clone, Copy, Debug, PartialEq, Eq, Structural)]
pub enum Endpoint {
    List(Resource),
    Create(Resource),
    Update(Resource, i32),
    Delete(Resource, i32),
}

/// Why a request is turned away before the store is asked anything.
#[derive(Clone, Copy, Debug, PartialEq, Eq, Structural)]
pub enum Rejection {
    /// The path is not in the routing table.
    NotFound,
    /// The path is in the routing table, but not with this method.
    MethodNotAllowed,
    /// The path or the body could not be decoded.
    Decode(DecodeError),
}

/// The path of the collection of a resource.
pub open spec fn collection_path(resource: Resource) -> Seq<char> {
    match resource {
        Resource::Bucket => "/buckets"@,
        Resource::Transaction => "/transactions"@,
        Resource::Balance => "/balance"@,
    }
}

/// The path of the collection of `resource`.
pub fn collection_of(resource: Resource) -> (path: &'static str)
    ensures
        path@ == collection_path(resource),
{
    match resource {
        Resource::Bucket => "/buckets",
        Resource::Transaction => "/transactions",
        Resource::Balance => "/balance",
    }
}

/// Whether `path` names an item of the collection at `collection`: the
/// collection's path, a slash, and one segment that is not empty and holds no
/// slash.
pub open spec fn is_item_path(path: Seq<char>, collection: Seq<char>) -> bool {
    &&& path.len() > collection.len() + 1
    &&& path.take(collection.len() as int) == collection
    &&& path[collection.len() as int] == '/'
    &&& !path.skip(collection.len() as int + 1).contains('/')
}

/// What a path names.
pub enum Target {
    /// A collection.
    Collection(Resource),
    /// An item of a collection, with the segment that stands for its id.
    Item(Resource, Seq<char>),
}

/// What `path` names among the collection of `resource` and its items.
pub open spec fn target_in(path: Seq<char>, resource: Resource) -> Option<Target> {
    let collection = collection_path(resource);
    if path == collection {
        Some(Target::Collection(resource))
    } else if is_item_path(path, collection) {
        Some(Target::Item(resource, path.skip(collection.len() as int + 1)))
    } else {
        None
    }
}

/// What `path` names: a collection or an item of the buckets, else of the
/// transactions, else of the balance.
pub open spec fn target_of(path: Seq<char>) -> Option<Target> {
    if target_in(path, Resource::Bucket) is Some {
        target_in(path, Resource::Bucket)
    } else if target_in(path, Resource::Transaction) is Some {
        target_in(path, Resource::Transaction)
    } else {
        target_in(path, Resource::Balance)
    }
}

/// The endpoint for what a path names: a collection is listed with GET and
/// added to with POST; an item is updated with PUT and deleted with DELETE,
/// if its segment writes an id.
pub open spec fn route_target(method: Method, target: Target) -> Result<Endpoint, Rejection> {
    match target {
        Target::Collection(resource) => match method {
            Method::Get => Ok(Endpoint::List(resource)),
            Method::Post => Ok(Endpoint::Create(resource)),
            _ => Err(Rejection::MethodNotAllowed),
        },
        Target::Item(resource, segment) => match method {
            Method::Put => match id_of_text(segment) {
                Some(id) => Ok(Endpoint::Update(resource, id)),
                None => Err(Rejection::Decode(DecodeError::InvalidId)),
            },
            Method::Delete => match id_of_text(segment) {
                Some(id) => Ok(Endpoint::Delete(resource, id)),
                None => Err(Rejection::Decode(DecodeError::InvalidId)),
            },
            _ => Err(Rejection::MethodNotAllowed),
        },
    }
}

/// The endpoint that `method` and `path` name, or why the request is turned
/// away.
pub open spec fn route_of(method: Method, path: Seq<char>) -> Result<Endpoint, Rejection> {
    match target_of(path) {
        None => Err(Rejection::NotFound),
        Some(target) => route_target(method, target),
    }
}

/// The path of the item `id` of a resource: the collection's path, a slash
/// and the id in decimal.
pub open spec fn item_path(resource: Resource, id: i32) -> Seq<char> {
    collection_path(resource) + seq!['/'] + decimal_text(id as int)
}

/// The decimal form of a number holds no slash.
proof fn lemma_decimal_text_has_no_slash(i: int)
    ensures
        decimal_text(i).len() > 0,
        !decimal_text(i).contains('/'),
{
    if i < 0 {
        lemma_natural_text_reads_back((-i) as nat);
    } else {
        lemma_natural_text_reads_back(i as nat);
    }
}

/// The path of an item names that item, with its id in decimal as the
/// segment.
proof fn lemma_item_path_is_an_item(resource: Resource, id: i32)
    ensures
        target_of(item_path(resource, id)) == Some(
            Target::Item(resource, decimal_text(id as int)),
        ),
{
    reveal_strlit("/buckets");
    reveal_strlit("/transactions");
    reveal_strlit("/balance");
    lemma_decimal_text_has_no_slash(id as int);
    let path = item_path(resource, id);
    let collection = collection_path(resource);
    let n = collection.len() as int;
    assert(path.take(n) =~= collection);
    assert(path.skip(n + 1) =~= decimal_text(id as int));
    if resource == Resource::Balance {
        assert(path.take(8)[2] != "/buckets"@[2]);
    }
}

/// The path of a collection names that collection.
proof fn lemma_collection_path_is_a_collection(resource: Resource)
    ensures
        target_of(collection_path(resource)) == Some(Target::Collection(resource)),
{
    reveal_strlit("/buckets");
    reveal_strlit("/transactions");
    reveal_strlit("/balance");
    if resource == Resource::Balance {
        assert(collection_path(resource)[2] != "/buckets"@[2]);
    }
}

/// The routing table, row by row, for every resource and every id: GET and
/// POST on the path of a collection list it and add to it; PUT and DELETE on
/// the path of an item update and delete the item with that id. Every id can
/// be addressed, and is addressed by its decimal form.
pub proof fn law_routing_table(resource: Resource, id: i32)
    ensures
        route_of(Method::Get, collection_path(resource)) == Ok::<Endpoint, Rejection>(
            Endpoint::List(resource),
        ),
        route_of(Method::Post, collection_path(resource)) == Ok::<Endpoint, Rejection>(
            Endpoint::Create(resource),
        ),
        route_of(Method::Put, item_path(resource, id)) == Ok::<Endpoint, Rejection>(
            Endpoint::Update(resource, id),
        ),
        route_of(Method::Delete, item_path(resource, id)) == Ok::<Endpoint, Rejection>(
            Endpoint::Delete(resource, id),
        ),
{
    lemma_collection_path_is_a_collection(resource);
    lemma_item_path_is_an_item(resource, id);
    law_id_text_reads_back(id);
}

/// No path names two resources: the order in which the routing table is
/// gone through changes nothing.
pub proof fn law_paths_name_one_resource(path: Seq<char>, one: Resource, other: Resource)
    requires
        target_in(path, one) is Some,
        target_in(path, other) is Some,
    ensures
        one == other,
{
    reveal_strlit("/buckets");
    reveal_strlit("/transactions");
    reveal_strlit("/balance");
    let first = collection_path(one);
    let second = collection_path(other);
    assert(path.take(first.len() as int)[1] == path[1]);
    assert(path.take(first.len() as int)[2] == path[2]);
    assert(path.take(second.len() as int)[1] == path[1]);
    assert(path.take(second.len() as int)[2] == path[2]);
}

/// What a path is to one collection.
enum Place {
    /// The path is the collection's.
    Here,
    /// The path is an item's, and its segment starts at this index.
    Under(usize),
    /// The path is neither.
    Elsewhere,
}

/// Holds `path` against the collection of `resource`.
fn place(path: &Vec<char>, resource: Resource) -> (found: Place)
    ensures
        match found {
            Place::Here => target_in(path@, resource) == Some(Target::Collection(resource)),
            Place::Under(start) => start <= path.len() && target_in(path@, resource) == Some(
                Target::Item(resource, path@.skip(start as int)),
            ),
            Place::Elsewhere => target_in(path@, resource) is None,
        },
{
    let collection = chars_of(collection_of(resource));
    let n = collection.len();
    if path.len() < n {
        return Place::Elsewhere;
    }
    let mut i: usize = 0;
    while i < n
        invariant
            i <= n,
            n == collection.len(),
            n <= path.len(),
            collection@ == collection_path(resource),
            forall|k: int| 0 <= k < i ==> path@[k] == collection@[k],
        decreases n - i,
    {
        if path[i] != collection[i] {
            return Place::Elsewhere;
        }
        i = i + 1;
    }
    assert(path@.take(n as int) =~= collection@);
    if path.len() == n {
        assert(path@ =~= collection@);
        return Place::Here;
    }
    if path[n] != '/' || path.len() == n + 1 {
        return Place::Elsewhere;
    }
    let start = n + 1;
    let mut j = start;
    while j < path.len()
        invariant
            start <= j <= path.len(),
            start == collection_path(resource).len() + 1,
            forall|k: int| start <= k < j ==> path@[k] != '/',
        decreases path.len() - j,
    {
        if path[j] == '/' {
            assert(path@.skip(start as int)[j - start] == '/');
            return Place::Elsewhere;
        }
        j = j + 1;
    }
    Place::Under(start)
}

/// Reads the id of an item and picks the endpoint for it.
fn item(method: Method, resource: Resource, path: &Vec<char>, start: usize) -> (result: Result<
    Endpoint,
    Rejection,
>)
    requires
        start <= path.len(),
    ensures
        result == route_target(method, Target::Item(resource, path@.skip(start as int))),
{
    match method {
        Method::Put => match parse_id_chars(path, start) {
            Some(id) => Ok(Endpoint::Update(resource, id)),
            None => Err(Rejection::Decode(DecodeError::InvalidId)),
        },
        Method::Delete => match parse_id_chars(path, start) {
            Some(id) => Ok(Endpoint::Delete(resource, id)),
            None => Err(Rejection::Decode(DecodeError::InvalidId)),
        },
        _ => Err(Rejection::MethodNotAllowed),
    }
}

/// Picks the endpoint for a collection.
fn collection(method: Method, resource: Resource) -> (result: Result<Endpoint, Rejection>)
    ensures
        result == route_target(method, Target::Collection(resource)),
{
    match method {
        Method::Get => Ok(Endpoint::List(resource)),
        Method::Post => Ok(Endpoint::Create(resource)),
        _ => Err(Rejection::MethodNotAllowed),
    }
}

/// Routes a request.
pub fn route(method: Method, path: &str) -> (result: Result<Endpoint, Rejection>)
    ensures
        result == route_of(method, path@),
{
    let chars = chars_of(path);
    match place(&chars, Resource::Bucket) {
        Place::Here => return collection(method, Resource::Bucket),
        Place::Under(start) => return item(method, Resource::Bucket, &chars, start),
        Place::Elsewhere => {},
    }
    match place(&chars, Resource::Transaction) {
        Place::Here => return collection(method, Resource::Transaction),
        Place::Under(start) => return item(method, Resource::Transaction, &chars, start),
        Place::Elsewhere => {},
    }
    match place(&chars, Resource::Balance) {
        Place::Here => collection(method, Resource::Balance),
        Place::Under(start) => item(method, Resource::Balance, &chars, start),
        Place::Elsewhere => Err(Rejection::NotFound),
    }
}

} // verus!
