//! Products: changes of stock, and the answers of the product commands.

use vstd::prelude::*;
use crate::errors::{RepositoryError, ServiceError};
use crate::model::{
    ApiResponse, ProductRecord, copy_opt_text, custom_failure, is_success_reply, repo_failure, success_reply, unit_reply,
};
use crate::text::copy_str;

verus! {

/// A product as the services answer with it; the price is in the smallest
/// currency unit.
#[derive(Debug, Clone)]
pub struct ProductResponse {
    pub id: i32,
    pub name: String,
    pub price: i64,
    pub stock: i32,
    pub created_at: Option<String>,
    pub updated_at: Option<String>,
}

/// A trashed product as the services answer with it.
#[derive(Debug, Clone)]
pub struct ProductResponseDeleteAt {
    pub id: i32,
    pub name: String,
    pub price: i64,
    pub stock: i32,
    pub created_at: Option<String>,
    pub updated_at: Option<String>,
    pub deleted_at: Option<String>,
}

/// Whether an answer shows a product row.
pub open spec fn shows_product(r: ProductResponse, p: ProductRecord) -> bool {
    &&& r.id == p.product_id
    &&& r.name@ == p.name@
    &&& r.price == p.price
    &&& r.stock == p.stock
    &&& r.created_at == p.created_at
    &&& r.updated_at == p.updated_at
}

/// Whether an answer shows a trashed product row.
pub open spec fn shows_trashed_product(r: ProductResponseDeleteAt, p: ProductRecord) -> bool {
    &&& r.id == p.product_id
    &&& r.name@ == p.name@
    &&& r.price == p.price
    &&& r.stock == p.stock
    &&& r.created_at == p.created_at
    &&& r.updated_at == p.updated_at
    &&& r.deleted_at == p.deleted_at
}

impl ProductResponse {
    /// The answer showing a product row.
    pub fn from_record(p: &ProductRecord) -> (r: ProductResponse)
        ensures
            shows_product(r, *p),
    {
        ProductResponse {
            id: p.product_id,
            name: p.name.clone(),
            price: p.price,
            stock: p.stock,
            created_at: copy_opt_text(&p.created_at),
            updated_at: copy_opt_text(&p.updated_at),
        }
    }
}

impl ProductResponseDeleteAt {
    /// The answer showing a trashed product row.
    pub fn from_record(p: &ProductRecord) -> (r: ProductResponseDeleteAt)
        ensures
            shows_trashed_product(r, *p),
    {
        ProductResponseDeleteAt {
            id: p.product_id,
            name: p.name.clone(),
            price: p.price,
            stock: p.stock,
            created_at: copy_opt_text(&p.created_at),
            updated_at: copy_opt_text(&p.updated_at),
            deleted_at: copy_opt_text(&p.deleted_at),
        }
    }
}

/// Which way a stock change goes.
#[derive(Debug, Clone, Copy, PartialEq, Eq)]
pub enum StockChange {
    Increase,
    Decrease,
}

/// What the caller does next when changing a product's stock.
#[derive(Debug)]
pub enum StockStep {
    /// Change the stock by the quantity in the repository, then call
    /// `stock_changed_reply`.
    ChangeStock { change: StockChange, product_id: i32, qty: i32 },
    /// Answer.
    Finish { reply: Result<ApiResponse<ProductResponse>, ServiceError> },
}

/// The refusal of a stock change by a quantity below one.
pub open spec fn nonpositive_message(change: StockChange) -> Seq<char> {
    match change {
        StockChange::Increase => "Quantity to increase must be positive"@,
        StockChange::Decrease => "Quantity to decrease must be positive"@,
    }
}

/// The answer to a stock change made.
pub open spec fn stock_changed_message(change: StockChange) -> Seq<char> {
    match change {
        StockChange::Increase => "Product stock increased successfully"@,
        StockChange::Decrease => "Product stock decreased successfully"@,
    }
}

/// A change of stock begins with its quantity: only a positive quantity
/// reaches the repository.
pub fn start_stock_change(change: StockChange, product_id: i32, qty: i32) -> (s: StockStep)
    ensures
        qty <= 0 ==> (s matches StockStep::Finish { reply } && custom_failure(reply, nonpositive_message(change))),
        qty > 0 ==> (s matches StockStep::ChangeStock { change: c, product_id: p, qty: q } && c == change && p
            == product_id && q == qty),
{
    if qty <= 0 {
        let m = match change {
            StockChange::Increase => copy_str("Quantity to increase must be positive"),
            StockChange::Decrease => copy_str("Quantity to decrease must be positive"),
        };
        StockStep::Finish { reply: Err(ServiceError::Custom(m)) }
    } else {
        StockStep::ChangeStock { change, product_id, qty }
    }
}

/// The answer to a product command that returns the changed product row.
fn product_reply(outcome: Result<ProductRecord, RepositoryError>, message: &str) -> (r: Result<ApiResponse<ProductResponse>, ServiceError>)
    ensures
        match outcome {
            Err(e) => repo_failure(r, e),
            Ok(p) => r matches Ok(a) && a.status@ == "success"@ && a.message@ == message@ && shows_product(a.data, p),
        },
{
    match outcome {
        Err(e) => Err(ServiceError::Repo(e)),
        Ok(p) => Ok(success_reply(message, ProductResponse::from_record(&p))),
    }
}

/// The answer to a stock change the repository made, or refused.
pub fn stock_changed_reply(change: StockChange, outcome: Result<ProductRecord, RepositoryError>) -> (r: Result<ApiResponse<ProductResponse>, ServiceError>)
    ensures
        match outcome {
            Err(e) => repo_failure(r, e),
            Ok(p) => r matches Ok(a) && a.status@ == "success"@ && a.message@ == stock_changed_message(change)
                && shows_product(a.data, p),
        },
{
    match change {
        StockChange::Increase => product_reply(outcome, "Product stock increased successfully"),
        StockChange::Decrease => product_reply(outcome, "Product stock decreased successfully"),
    }
}

/// The answer to a product command that returns a product row with its
/// deletion date.
fn trashed_product_reply(outcome: Result<ProductRecord, RepositoryError>, message: &str) -> (r: Result<ApiResponse<ProductResponseDeleteAt>, ServiceError>)
    ensures
        match outcome {
            Err(e) => repo_failure(r, e),
            Ok(p) => r matches Ok(a) && a.status@ == "success"@ && a.message@ == message@ && shows_trashed_product(
                a.data,
                p,
            ),
        },
{
    match outcome {
        Err(e) => Err(ServiceError::Repo(e)),
        Ok(p) => Ok(success_reply(message, ProductResponseDeleteAt::from_record(&p))),
    }
}

/// The answer to creating a product.
pub fn product_created_reply(outcome: Result<ProductRecord, RepositoryError>) -> (r: Result<ApiResponse<ProductResponse>, ServiceError>)
    ensures
        match outcome {
            Err(e) => repo_failure(r, e),
            Ok(x) => r matches Ok(a) && a.status@ == "success"@ && a.message@ == "Product created successfully"@ && shows_product(a.data, x),
        },
{
    product_reply(outcome, "Product created successfully")
}

/// The answer to changing a product.
pub fn product_updated_reply(outcome: Result<ProductRecord, RepositoryError>) -> (r: Result<ApiResponse<ProductResponse>, ServiceError>)
    ensures
        match outcome {
            Err(e) => repo_failure(r, e),
            Ok(x) => r matches Ok(a) && a.status@ == "success"@ && a.message@ == "Product updated successfully"@ && shows_product(a.data, x),
        },
{
    product_reply(outcome, "Product updated successfully")
}

/// The answer to trashing a product: the row with its deletion date.
pub fn product_trashed_reply(outcome: Result<ProductRecord, RepositoryError>) -> (r: Result<ApiResponse<ProductResponseDeleteAt>, ServiceError>)
    ensures
        match outcome {
            Err(e) => repo_failure(r, e),
            Ok(x) => r matches Ok(a) && a.status@ == "success"@ && a.message@ == "Product moved to trash successfully"@ && shows_trashed_product(a.data, x),
        },
{
    trashed_product_reply(outcome, "Product moved to trash successfully")
}

/// The answer to restoring a product.
pub fn product_restored_reply(outcome: Result<ProductRecord, RepositoryError>) -> (r: Result<ApiResponse<ProductResponse>, ServiceError>)
    ensures
        match outcome {
            Err(e) => repo_failure(r, e),
            Ok(x) => r matches Ok(a) && a.status@ == "success"@ && a.message@ == "Product restored successfully"@ && shows_product(a.data, x),
        },
{
    product_reply(outcome, "Product restored successfully")
}

/// The answer to deleting a trashed product for good.
pub fn product_deleted_reply(outcome: Result<(), RepositoryError>) -> (r: Result<ApiResponse<()>, ServiceError>)
    ensures
        match outcome {
            Err(e) => repo_failure(r, e),
            Ok(()) => r matches Ok(a) && is_success_reply(a, "Product deleted permanently"@, ()),
        },
{
    unit_reply(outcome, "Product deleted permanently")
}

/// The answer to restoring all trashed products.
pub fn all_products_restored_reply(outcome: Result<(), RepositoryError>) -> (r: Result<ApiResponse<()>, ServiceError>)
    ensures
        match outcome {
            Err(e) => repo_failure(r, e),
            Ok(()) => r matches Ok(a) && is_success_reply(a, "All Products restored successfully"@, ()),
        },
{
    unit_reply(outcome, "All Products restored successfully")
}

/// The answer to deleting all trashed products for good.
pub fn all_products_deleted_reply(outcome: Result<(), RepositoryError>) -> (r: Result<ApiResponse<()>, ServiceError>)
    ensures
        match outcome {
            Err(e) => repo_failure(r, e),
            Ok(()) => r matches Ok(a) && is_success_reply(a, "All Products deleted permanently"@, ()),
        },
{
    unit_reply(outcome, "All Products deleted permanently")
}

} // verus!
