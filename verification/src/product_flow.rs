//! Reading and creating products through the cache, as state machines:
//! reads ask the cache first and fall back to the store, filling the cache
//! with what the store gave; creating a product stores it and then drops
//! the cached data. The caller performs each action and feeds the reply
//! back until the action is a `Finish`.

use vstd::prelude::*;

use crate::clock::{now, Timestamp};
use crate::error::{AppError, Failure};
use crate::ids::{is_random_uuid, ProductId};
use crate::product::{duplicate_products, Product};
use crate::value_objects::{Price, ProductDescription, ProductName, Quantity};

verus! {

/// A reply to the action that a product flow asked for.
#[derive(Debug)]
pub enum ProductReply {
    /// Answer to `ReadCached`.
    Cached(Result<Option<Product>, AppError>),
    /// Answer to `ReadCachedList`.
    CachedList(Result<Option<Vec<Product>>, AppError>),
    /// Answer to `Load`.
    Loaded(Result<Option<Product>, AppError>),
    /// Answer to `LoadAll`.
    LoadedList(Result<Vec<Product>, AppError>),
    /// Answer to `Store`: the product as stored.
    Stored(Result<Product, AppError>),
    /// Answer to `CacheOne`, `CacheList` and `InvalidateCache`.
    Acknowledged(Result<(), AppError>),
}

/// What a product flow asks the caller to do next.
#[derive(Debug)]
pub enum ProductAction {
    /// Read one product from the cache.
    ReadCached(ProductId),
    /// Read the cached list of all products.
    ReadCachedList,
    /// Load one product from the store.
    Load(ProductId),
    /// Load all products from the store.
    LoadAll,
    /// Store a new product.
    Store(Product),
    /// Put one product into the cache.
    CacheOne(Product),
    /// Put the list of all products into the cache.
    CacheList(Vec<Product>),
    /// Drop the cached product data.
    InvalidateCache,
    /// The flow is over with one product, or a failure.
    FinishOne(Result<Product, Failure>),
    /// The flow is over with a list of products, or a failure.
    FinishList(Result<Vec<Product>, Failure>),
}

/// Where a product flow stands.
#[derive(Debug)]
pub enum ProductFlow {
    LookingUpCache { id: ProductId },
    LoadingOne { id: ProductId },
    CachingOne { product: Product },
    ListingCache,
    LoadingList,
    CachingList { products: Vec<Product> },
    Creating,
    Invalidating { created: Product },
    Done,
}

/// The end of a single-product flow.
pub open spec fn finished_one(r: Result<Product, Failure>) -> (ProductFlow, ProductAction) {
    (ProductFlow::Done, ProductAction::FinishOne(r))
}

/// The end of a list flow.
pub open spec fn finished_list(r: Result<Vec<Product>, Failure>) -> (ProductFlow, ProductAction) {
    (ProductFlow::Done, ProductAction::FinishList(r))
}

/// One step of a product flow: the next state and action, given the reply
/// to the last action.
pub open spec fn next(flow: ProductFlow, reply: ProductReply) -> (ProductFlow, ProductAction) {
    match flow {
        ProductFlow::LookingUpCache { id } => match reply {
            ProductReply::Cached(Err(e)) => finished_one(Err(Failure::Upstream(e))),
            ProductReply::Cached(Ok(Some(p))) => finished_one(Ok(p)),
            ProductReply::Cached(Ok(None)) => (
                ProductFlow::LoadingOne { id },
                ProductAction::Load(id),
            ),
            _ => finished_one(Err(Failure::UnexpectedReply)),
        },
        ProductFlow::LoadingOne { id } => match reply {
            ProductReply::Loaded(Err(e)) => finished_one(Err(Failure::Upstream(e))),
            ProductReply::Loaded(Ok(None)) => finished_one(Err(Failure::ProductNotFound(id))),
            ProductReply::Loaded(Ok(Some(p))) => (
                ProductFlow::CachingOne { product: p },
                ProductAction::CacheOne(p),
            ),
            _ => finished_one(Err(Failure::UnexpectedReply)),
        },
        ProductFlow::CachingOne { product } => match reply {
            ProductReply::Acknowledged(_) => finished_one(Ok(product)),
            _ => finished_one(Err(Failure::UnexpectedReply)),
        },
        ProductFlow::ListingCache => match reply {
            ProductReply::CachedList(Err(e)) => finished_list(Err(Failure::Upstream(e))),
            ProductReply::CachedList(Ok(Some(v))) => finished_list(Ok(v)),
            ProductReply::CachedList(Ok(None)) => (
                ProductFlow::LoadingList,
                ProductAction::LoadAll,
            ),
            _ => finished_list(Err(Failure::UnexpectedReply)),
        },
        ProductFlow::LoadingList => match reply {
            ProductReply::LoadedList(Err(e)) => finished_list(Err(Failure::Upstream(e))),
            ProductReply::LoadedList(Ok(v)) => (
                ProductFlow::CachingList { products: v },
                ProductAction::CacheList(v),
            ),
            _ => finished_list(Err(Failure::UnexpectedReply)),
        },
        ProductFlow::CachingList { products } => match reply {
            ProductReply::Acknowledged(_) => finished_list(Ok(products)),
            _ => finished_list(Err(Failure::UnexpectedReply)),
        },
        ProductFlow::Creating => match reply {
            ProductReply::Stored(Err(e)) => finished_one(Err(Failure::Upstream(e))),
            ProductReply::Stored(Ok(created)) => (
                ProductFlow::Invalidating { created },
                ProductAction::InvalidateCache,
            ),
            _ => finished_one(Err(Failure::UnexpectedReply)),
        },
        ProductFlow::Invalidating { created } => match reply {
            ProductReply::Acknowledged(_) => finished_one(Ok(created)),
            _ => finished_one(Err(Failure::UnexpectedReply)),
        },
        ProductFlow::Done => finished_one(Err(Failure::UnexpectedReply)),
    }
}

/// Two actions ask for the same thing: equal, where a list of products is
/// compared by its elements.
pub open spec fn same_action(a: ProductAction, b: ProductAction) -> bool {
    match (a, b) {
        (ProductAction::CacheList(v), ProductAction::CacheList(w)) => v@ == w@,
        (ProductAction::FinishList(Ok(v)), ProductAction::FinishList(Ok(w))) => v@ == w@,
        _ => a == b,
    }
}

impl ProductFlow {
    /// Takes the reply to the last action and gives the next state and
    /// action.
    pub fn step(self, reply: ProductReply) -> (res: (ProductFlow, ProductAction))
        ensures
            res.0 == next(self, reply).0,
            same_action(res.1, next(self, reply).1),
    {
        match self {
            ProductFlow::LookingUpCache { id } => match reply {
                ProductReply::Cached(Err(e)) => finish_one(Err(Failure::Upstream(e))),
                ProductReply::Cached(Ok(Some(p))) => finish_one(Ok(p)),
                ProductReply::Cached(Ok(None)) => (
                    ProductFlow::LoadingOne { id },
                    ProductAction::Load(id),
                ),
                _ => finish_one(Err(Failure::UnexpectedReply)),
            },
            ProductFlow::LoadingOne { id } => match reply {
                ProductReply::Loaded(Err(e)) => finish_one(Err(Failure::Upstream(e))),
                ProductReply::Loaded(Ok(None)) => finish_one(Err(Failure::ProductNotFound(id))),
                ProductReply::Loaded(Ok(Some(p))) => {
                    let copy = p.duplicate();
                    (ProductFlow::CachingOne { product: p }, ProductAction::CacheOne(copy))
                },
                _ => finish_one(Err(Failure::UnexpectedReply)),
            },
            ProductFlow::CachingOne { product } => match reply {
                ProductReply::Acknowledged(_) => finish_one(Ok(product)),
                _ => finish_one(Err(Failure::UnexpectedReply)),
            },
            ProductFlow::ListingCache => match reply {
                ProductReply::CachedList(Err(e)) => finish_list(Err(Failure::Upstream(e))),
                ProductReply::CachedList(Ok(Some(v))) => finish_list(Ok(v)),
                ProductReply::CachedList(Ok(None)) => (
                    ProductFlow::LoadingList,
                    ProductAction::LoadAll,
                ),
                _ => finish_list(Err(Failure::UnexpectedReply)),
            },
            ProductFlow::LoadingList => match reply {
                ProductReply::LoadedList(Err(e)) => finish_list(Err(Failure::Upstream(e))),
                ProductReply::LoadedList(Ok(v)) => {
                    let copy = duplicate_products(&v);
                    (ProductFlow::CachingList { products: v }, ProductAction::CacheList(copy))
                },
                _ => finish_list(Err(Failure::UnexpectedReply)),
            },
            ProductFlow::CachingList { products } => match reply {
                ProductReply::Acknowledged(_) => finish_list(Ok(products)),
                _ => finish_list(Err(Failure::UnexpectedReply)),
            },
            ProductFlow::Creating => match reply {
                ProductReply::Stored(Err(e)) => finish_one(Err(Failure::Upstream(e))),
                ProductReply::Stored(Ok(created)) => (
                    ProductFlow::Invalidating { created },
                    ProductAction::InvalidateCache,
                ),
                _ => finish_one(Err(Failure::UnexpectedReply)),
            },
            ProductFlow::Invalidating { created } => match reply {
                ProductReply::Acknowledged(_) => finish_one(Ok(created)),
                _ => finish_one(Err(Failure::UnexpectedReply)),
            },
            ProductFlow::Done => finish_one(Err(Failure::UnexpectedReply)),
        }
    }
}

/// A lookup or a listing that the cache answers ends with the cached data,
/// without asking the store.
pub proof fn law_cache_hit_answers(id: ProductId, p: Product, v: Vec<Product>)
    ensures
        next(ProductFlow::LookingUpCache { id }, ProductReply::Cached(Ok(Some(p)))) == finished_one(
            Ok(p),
        ),
        next(ProductFlow::ListingCache, ProductReply::CachedList(Ok(Some(v)))) == finished_list(
            Ok(v),
        ),
{
}

/// The store is read only after the cache had nothing: a load follows a
/// cache miss for the same product, a full load a miss of the list.
pub proof fn law_store_read_only_on_miss(flow: ProductFlow, reply: ProductReply)
    ensures
        next(flow, reply).1 matches ProductAction::Load(x) ==> (flow == (ProductFlow::LookingUpCache {
            id: x,
        }) && (reply matches ProductReply::Cached(Ok(None)))),
        next(flow, reply).1 is LoadAll ==> (flow is ListingCache && (reply matches ProductReply::CachedList(Ok(None)))),
{
}

/// What the store gives on a miss is put into the cache and then returned,
/// whatever the cache answers.
pub proof fn law_loaded_data_is_cached_and_returned(
    id: ProductId,
    p: Product,
    v: Vec<Product>,
    ack: Result<(), AppError>,
)
    ensures
        next(ProductFlow::LoadingOne { id }, ProductReply::Loaded(Ok(Some(p)))) == (
            ProductFlow::CachingOne { product: p },
            ProductAction::CacheOne(p),
        ),
        next(ProductFlow::CachingOne { product: p }, ProductReply::Acknowledged(ack))
            == finished_one(Ok(p)),
        next(ProductFlow::LoadingList, ProductReply::LoadedList(Ok(v))) == (
            ProductFlow::CachingList { products: v },
            ProductAction::CacheList(v),
        ),
        next(ProductFlow::CachingList { products: v }, ProductReply::Acknowledged(ack))
            == finished_list(Ok(v)),
{
}

/// A product that the store does not have is answered with
/// `ProductNotFound` for its identifier.
pub proof fn law_missing_product_not_found(id: ProductId)
    ensures
        next(ProductFlow::LoadingOne { id }, ProductReply::Loaded(Ok(None))) == finished_one(
            Err(Failure::ProductNotFound(id)),
        ),
{
}

/// Creating a product drops the cached data once it is stored, and answers
/// with the product as stored, whatever dropping the cache gave.
pub proof fn law_creation_invalidates_cache(created: Product, ack: Result<(), AppError>)
    ensures
        next(ProductFlow::Creating, ProductReply::Stored(Ok(created))) == (
            ProductFlow::Invalidating { created },
            ProductAction::InvalidateCache,
        ),
        next(ProductFlow::Invalidating { created }, ProductReply::Acknowledged(ack))
            == finished_one(Ok(created)),
{
}

/// A failed cache or store call ends the flow with that call's error:
/// neither a missing product nor an empty list is made of it.
pub proof fn law_failed_calls_pass_their_error_on(id: ProductId, e: AppError)
    ensures
        next(ProductFlow::LookingUpCache { id }, ProductReply::Cached(Err(e))) == finished_one(
            Err(Failure::Upstream(e)),
        ),
        next(ProductFlow::LoadingOne { id }, ProductReply::Loaded(Err(e))) == finished_one(
            Err(Failure::Upstream(e)),
        ),
        next(ProductFlow::ListingCache, ProductReply::CachedList(Err(e))) == finished_list(
            Err(Failure::Upstream(e)),
        ),
        next(ProductFlow::LoadingList, ProductReply::LoadedList(Err(e))) == finished_list(
            Err(Failure::Upstream(e)),
        ),
        next(ProductFlow::Creating, ProductReply::Stored(Err(e))) == finished_one(
            Err(Failure::Upstream(e)),
        ),
{
}

/// A cache miss sends the lookup to the store for the same product, and the
/// listing to the store for all products.
pub proof fn law_cache_miss_asks_the_store(id: ProductId)
    ensures
        next(ProductFlow::LookingUpCache { id }, ProductReply::Cached(Ok(None))) == (
            ProductFlow::LoadingOne { id },
            ProductAction::Load(id),
        ),
        next(ProductFlow::ListingCache, ProductReply::CachedList(Ok(None))) == (
            ProductFlow::LoadingList,
            ProductAction::LoadAll,
        ),
{
}

/// A product is reported missing only when the store, asked for it after
/// a cache miss, answered that it has none.
pub proof fn law_not_found_only_when_store_has_none(flow: ProductFlow, reply: ProductReply)
    ensures
        next(flow, reply).1 matches ProductAction::FinishOne(Err(Failure::ProductNotFound(x)))
            ==> (flow == (ProductFlow::LoadingOne { id: x }) && (reply matches ProductReply::Loaded(
            Ok(None),
        ))),
{
}

/// A flow succeeds only with data that the cache or the store gave: a
/// listing with the cached list or the list that the store loaded, a
/// single product with the cached product, the loaded product or the
/// product as stored.
pub proof fn law_success_carries_given_data(flow: ProductFlow, reply: ProductReply)
    ensures
        next(flow, reply).1 matches ProductAction::FinishList(Ok(v)) ==> ((flow is ListingCache
            && (reply matches ProductReply::CachedList(Ok(Some(w))) && w == v)) || (
        flow matches ProductFlow::CachingList { products } && products == v
            && reply is Acknowledged)),
        next(flow, reply).1 matches ProductAction::FinishOne(Ok(p)) ==> ((flow is LookingUpCache
            && (reply matches ProductReply::Cached(Ok(Some(q))) && q == p)) || (
        flow matches ProductFlow::CachingOne { product } && product == p && reply is Acknowledged)
            || (flow matches ProductFlow::Invalidating { created } && created == p
            && reply is Acknowledged)),
        next(flow, reply).0 matches ProductFlow::CachingOne { product } ==> (flow is LoadingOne
            && (reply matches ProductReply::Loaded(Ok(Some(q))) && q == product)),
        next(flow, reply).0 matches ProductFlow::CachingList { products } ==> (flow is LoadingList
            && (reply matches ProductReply::LoadedList(Ok(w)) && w == products)),
        next(flow, reply).0 matches ProductFlow::Invalidating { created } ==> (flow is Creating
            && (reply matches ProductReply::Stored(Ok(c)) && c == created)),
{
}

/// The product that a creation asks to store has exactly the given
/// identifier, name, price, stock and description, and was created and
/// last updated at the given time.
pub proof fn law_created_product_has_given_fields(
    id: ProductId,
    name: ProductName,
    price: Price,
    stock: Quantity,
    description: ProductDescription,
    at: Timestamp,
)
    ensures
        new_product(id, name, price, stock, description, at).id == id,
        new_product(id, name, price, stock, description, at).name == name,
        new_product(id, name, price, stock, description, at).price == price,
        new_product(id, name, price, stock, description, at).stock == stock,
        new_product(id, name, price, stock, description, at).description == description,
        new_product(id, name, price, stock, description, at).created_at == at,
        new_product(id, name, price, stock, description, at).updated_at == at,
{
}

fn finish_one(r: Result<Product, Failure>) -> (res: (ProductFlow, ProductAction))
    ensures
        res == finished_one(r),
{
    (ProductFlow::Done, ProductAction::FinishOne(r))
}

fn finish_list(r: Result<Vec<Product>, Failure>) -> (res: (ProductFlow, ProductAction))
    ensures
        res == finished_list(r),
{
    (ProductFlow::Done, ProductAction::FinishList(r))
}

/// Starts looking up one product: the cache is asked first.
pub fn find_by_id(id: ProductId) -> (res: (ProductFlow, ProductAction))
    ensures
        res == (ProductFlow::LookingUpCache { id }, ProductAction::ReadCached(id)),
{
    (ProductFlow::LookingUpCache { id }, ProductAction::ReadCached(id))
}

/// Starts listing all products: the cache is asked first.
pub fn find_all() -> (res: (ProductFlow, ProductAction))
    ensures
        res == (ProductFlow::ListingCache, ProductAction::ReadCachedList),
{
    (ProductFlow::ListingCache, ProductAction::ReadCachedList)
}

/// The product that a creation stores.
pub open spec fn new_product(
    id: ProductId,
    name: ProductName,
    price: Price,
    stock: Quantity,
    description: ProductDescription,
    at: Timestamp,
) -> Product {
    Product { id, name, price, stock, description, created_at: at, updated_at: at }
}

/// Starts creating a product with this identifier and creation time.
pub fn create_with(
    name: ProductName,
    price: Price,
    stock: Quantity,
    description: ProductDescription,
    id: ProductId,
    at: Timestamp,
) -> (res: (ProductFlow, ProductAction))
    ensures
        res == (
            ProductFlow::Creating,
            ProductAction::Store(new_product(id, name, price, stock, description, at)),
        ),
        res.0 is Creating,
        (res.1 matches ProductAction::Store(p) && p.id == id && p.name == name && p.price == price
            && p.stock == stock && p.description == description && p.created_at == at
            && p.updated_at == at),
{
    let product = Product {
        id,
        name,
        price,
        stock,
        description,
        created_at: at,
        updated_at: at,
    };
    (ProductFlow::Creating, ProductAction::Store(product))
}

/// Starts creating a product, with a fresh identifier and the present
/// time as its creation and update time.
pub fn create(
    name: ProductName,
    price: Price,
    stock: Quantity,
    description: ProductDescription,
) -> (res: (ProductFlow, ProductAction))
    ensures
        exists|id: ProductId, at: Timestamp|
            {
                &&& is_random_uuid(id.0)
                &&& at.secs >= 0
                &&& at.nanos < 1_000_000_000
                &&& res == (
                    ProductFlow::Creating,
                    ProductAction::Store(new_product(id, name, price, stock, description, at)),
                )
                &&& res.0 is Creating
                &&& res.1 matches ProductAction::Store(p) && p.id == id && p.name == name
                    && p.price == price && p.stock == stock && p.description == description
                    && p.created_at == at && p.updated_at == at
            },
{
    let id = ProductId::new();
    let created = now();
    create_with(name, price, stock, description, id, created)
}

} // verus!
