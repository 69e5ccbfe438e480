//! Orders: the decisions of the order operations, step by step.
//!
//! The caller runs the steps: it queries the product and order
//! repositories, stores the orders, and serializes and publishes the order
//! events on the message bus.

use vstd::prelude::*;
use crate::errors::{RepositoryError, ServiceError};
use crate::model::{
    ApiResponse, OrderRecord, ProductRecord, copy_opt_text, custom_failure, is_success_reply, repo_failure,
    success_reply, unit_reply,
};
use crate::text::{copy_str, i64_text, int_decimal, join2};

verus! {

/// A new order for a quantity of a product.
#[derive(Debug, Clone, Copy)]
pub struct CreateOrderRequest {
    pub product_id: i32,
    pub quantity: i32,
}

/// New values for a stored order.
#[derive(Debug, Clone, Copy)]
pub struct UpdateOrderRequest {
    pub id: i32,
    pub product_id: i32,
    pub quantity: i32,
}

/// An order as the services answer with it.
#[derive(Debug, Clone)]
pub struct OrderResponse {
    pub id: i32,
    pub product_id: i32,
    pub quantity: i32,
    pub total: i64,
    pub created_at: Option<String>,
    pub updated_at: Option<String>,
}

/// A trashed order as the services answer with it.
#[derive(Debug, Clone)]
pub struct OrderResponseDeleteAt {
    pub id: i32,
    pub product_id: i32,
    pub quantity: i32,
    pub total: i64,
    pub created_at: Option<String>,
    pub updated_at: Option<String>,
    pub deleted_at: Option<String>,
}

/// What happened to an order, as told on the message bus.
#[derive(Debug, Clone, Copy)]
pub enum OrderEvent {
    Created { order_id: i32, product_id: i32, quantity: i32 },
    Updated { order_id: i32, product_id: i32, old_quantity: i32, new_quantity: i32 },
    Deleted { order_id: i32, product_id: i32, quantity: i32 },
}

/// How handing an event to the message bus went.
#[derive(Debug, Clone)]
pub enum PublishOutcome {
    /// The event was published.
    Published,
    /// The event could not be serialized; the text says why.
    SerializeFailed(String),
    /// The message bus refused the event; the text says why.
    PublishFailed(String),
}

/// The topic of created orders.
pub open spec fn created_topic() -> Seq<char> {
    "order.created"@
}

/// The topic of updated orders.
pub open spec fn updated_topic() -> Seq<char> {
    "order.updated"@
}

/// The topic of deleted orders.
pub open spec fn deleted_topic() -> Seq<char> {
    "order.deleted"@
}

/// The price of an order: the quantity times the unit price.
pub open spec fn order_total(quantity: int, price: int) -> int {
    quantity * price
}

/// Whether the price of `quantity` units at `price` fits in 64 bits.
pub open spec fn total_fits(quantity: i32, price: i64) -> bool {
    i64::MIN <= order_total(quantity as int, price as int) <= i64::MAX
}

/// Whether an answer shows an order row with the given total.
pub open spec fn shows_order(r: OrderResponse, o: OrderRecord, total: int) -> bool {
    &&& r.id == o.order_id
    &&& r.product_id == o.product_id
    &&& r.quantity == o.quantity
    &&& r.total == total
    &&& r.created_at == o.created_at
    &&& r.updated_at == o.updated_at
}

/// Whether an answer shows a trashed order row.
pub open spec fn shows_trashed_order(r: OrderResponseDeleteAt, o: OrderRecord) -> bool {
    &&& r.id == o.order_id
    &&& r.product_id == o.product_id
    &&& r.quantity == o.quantity
    &&& r.total == o.total
    &&& r.created_at == o.created_at
    &&& r.updated_at == o.updated_at
    &&& r.deleted_at == o.deleted_at
}

impl OrderResponse {
    /// The answer showing an order row, with the given total.
    pub fn from_record(o: &OrderRecord, total: i64) -> (r: OrderResponse)
        ensures
            shows_order(r, *o, total as int),
    {
        OrderResponse {
            id: o.order_id,
            product_id: o.product_id,
            quantity: o.quantity,
            total,
            created_at: copy_opt_text(&o.created_at),
            updated_at: copy_opt_text(&o.updated_at),
        }
    }
}

impl OrderResponseDeleteAt {
    /// The answer showing a trashed order row.
    pub fn from_record(o: &OrderRecord) -> (r: OrderResponseDeleteAt)
        ensures
            shows_trashed_order(r, *o),
    {
        OrderResponseDeleteAt {
            id: o.order_id,
            product_id: o.product_id,
            quantity: o.quantity,
            total: o.total,
            created_at: copy_opt_text(&o.created_at),
            updated_at: copy_opt_text(&o.updated_at),
            deleted_at: copy_opt_text(&o.deleted_at),
        }
    }
}

/// The price of `quantity` units at `price`.
pub fn price_order(quantity: i32, price: i64) -> (t: i64)
    requires
        total_fits(quantity, price),
    ensures
        t == order_total(quantity as int, price as int),
{
    quantity as i64 * price
}

/// The error of an event that could not be serialized.
fn serialize_failure(m: &str) -> (e: ServiceError)
    ensures
        e matches ServiceError::Custom(x) && x@ == "Failed to serialize event: "@ + m@,
{
    ServiceError::Custom(join2("Failed to serialize event: ", m))
}

// ---------------------------------------------------------------- create

/// An order being placed.
#[derive(Debug, Clone, Copy)]
pub struct CreateOrderFlow {
    pub request: CreateOrderRequest,
}

/// An order whose product has enough stock: it is stored at its price.
#[derive(Debug, Clone, Copy)]
pub struct CreateOrderPriced {
    pub request: CreateOrderRequest,
    pub total: i64,
}

/// A stored order whose creation is being told on the message bus.
#[derive(Debug, Clone)]
pub struct CreateOrderPublishing {
    pub response: OrderResponse,
}

/// What the caller does next when placing an order.
#[derive(Debug)]
pub enum CreateOrderStep {
    /// Look the product up, then call `on_product`.
    FindProduct { flow: CreateOrderFlow, product_id: i32 },
    /// Store the order at this total, then call `on_stored`.
    StoreOrder { flow: CreateOrderPriced, request: CreateOrderRequest, total: i64 },
    /// Serialize the event and publish it on the topic under the key, then
    /// call `on_published`.
    Publish { flow: CreateOrderPublishing, topic: String, key: String, event: OrderEvent },
    /// Answer.
    Finish { reply: Result<ApiResponse<OrderResponse>, ServiceError> },
}

/// The product lookup step of placing an order: an unknown product or a
/// quantity beyond the stock refuses the order; else it is stored at the
/// quantity times the unit price.
pub open spec fn create_priced_step(
    flow: CreateOrderFlow,
    found: Result<Option<ProductRecord>, RepositoryError>,
    s: CreateOrderStep,
) -> bool {
    match found {
        Err(e) => s matches CreateOrderStep::Finish { reply } && repo_failure(reply, e),
        Ok(None) => s matches CreateOrderStep::Finish { reply } && custom_failure(reply, "Product not found"@),
        Ok(Some(p)) => if flow.request.quantity > p.stock {
            s matches CreateOrderStep::Finish { reply } && custom_failure(reply, "Insufficient stock"@)
        } else {
            s matches CreateOrderStep::StoreOrder { flow: next, request, total } && {
                &&& request == flow.request
                &&& next.request == flow.request
                &&& total == order_total(flow.request.quantity as int, p.price as int)
                &&& next.total == total
            }
        },
    }
}

/// The store step of placing an order: the stored order is answered at the
/// computed total, and its creation is published keyed by its id.
pub open spec fn create_stored_step(
    flow: CreateOrderPriced,
    stored: Result<OrderRecord, RepositoryError>,
    s: CreateOrderStep,
) -> bool {
    match stored {
        Err(e) => s matches CreateOrderStep::Finish { reply } && repo_failure(reply, e),
        Ok(o) => s matches CreateOrderStep::Publish { flow: next, topic, key, event } && {
            &&& shows_order(next.response, o, flow.total as int)
            &&& topic@ == created_topic()
            &&& key@ == int_decimal(o.order_id as int)
            &&& event == OrderEvent::Created {
                order_id: o.order_id,
                product_id: o.product_id,
                quantity: o.quantity,
            }
        },
    }
}

/// The first step of placing an order: the product it asks for is looked
/// up.
pub open spec fn create_started_step(request: CreateOrderRequest, s: CreateOrderStep) -> bool {
    s matches CreateOrderStep::FindProduct { flow, product_id } && flow.request == request && product_id
        == request.product_id
}

impl CreateOrderFlow {
    /// Placing an order begins with the product lookup.
    pub fn start(request: CreateOrderRequest) -> (s: CreateOrderStep)
        ensures
            create_started_step(request, s),
    {
        CreateOrderStep::FindProduct { flow: CreateOrderFlow { request }, product_id: request.product_id }
    }

    /// The product lookup answered.
    pub fn on_product(self, found: Result<Option<ProductRecord>, RepositoryError>) -> (s: CreateOrderStep)
        requires
            found matches Ok(Some(p)) ==> (self.request.quantity <= p.stock ==> total_fits(
                self.request.quantity,
                p.price,
            )),
        ensures
            create_priced_step(self, found, s),
    {
        match found {
            Err(e) => CreateOrderStep::Finish { reply: Err(ServiceError::Repo(e)) },
            Ok(None) => CreateOrderStep::Finish { reply: Err(ServiceError::Custom(copy_str("Product not found"))) },
            Ok(Some(p)) => {
                if self.request.quantity > p.stock {
                    CreateOrderStep::Finish { reply: Err(ServiceError::Custom(copy_str("Insufficient stock"))) }
                } else {
                    let total = price_order(self.request.quantity, p.price);
                    CreateOrderStep::StoreOrder {
                        flow: CreateOrderPriced { request: self.request, total },
                        request: self.request,
                        total,
                    }
                }
            },
        }
    }
}

impl CreateOrderPriced {
    /// The order was stored, or not.
    pub fn on_stored(self, stored: Result<OrderRecord, RepositoryError>) -> (s: CreateOrderStep)
        ensures
            create_stored_step(self, stored, s),
    {
        match stored {
            Err(e) => CreateOrderStep::Finish { reply: Err(ServiceError::Repo(e)) },
            Ok(o) => {
                let response = OrderResponse::from_record(&o, self.total);
                let key = i64_text(o.order_id as i64);
                let event = OrderEvent::Created { order_id: o.order_id, product_id: o.product_id, quantity: o.quantity };
                CreateOrderStep::Publish {
                    flow: CreateOrderPublishing { response },
                    topic: copy_str("order.created"),
                    key,
                    event,
                }
            },
        }
    }
}

impl CreateOrderPublishing {
    /// The creation event was handed over, or not. Only an event that
    /// could not be serialized fails the operation: a refusal of the
    /// message bus does not undo the stored order.
    pub fn on_published(self, outcome: PublishOutcome) -> (s: CreateOrderStep)
        ensures
            match outcome {
                PublishOutcome::SerializeFailed(m) => s matches CreateOrderStep::Finish { reply }
                    && custom_failure(reply, "Failed to serialize event: "@ + m@),
                _ => s matches CreateOrderStep::Finish { reply: Ok(r) }
                    && is_success_reply(r, "Order created successfully"@, self.response),
            },
    {
        match outcome {
            PublishOutcome::SerializeFailed(m) => CreateOrderStep::Finish { reply: Err(serialize_failure(m.as_str())) },
            _ => CreateOrderStep::Finish { reply: Ok(success_reply("Order created successfully", self.response)) },
        }
    }
}

// ---------------------------------------------------------------- update

/// An order being changed.
#[derive(Debug, Clone, Copy)]
pub struct UpdateOrderFlow {
    pub request: UpdateOrderRequest,
}

/// An order being changed whose stored quantity is known.
#[derive(Debug, Clone, Copy)]
pub struct UpdateOrderFound {
    pub request: UpdateOrderRequest,
    pub old_quantity: i32,
}

/// A changed order whose product has enough stock: it is stored at its
/// new price.
#[derive(Debug, Clone, Copy)]
pub struct UpdateOrderPriced {
    pub request: UpdateOrderRequest,
    pub old_quantity: i32,
    pub total: i64,
}

/// A stored change whose event is being told on the message bus.
#[derive(Debug, Clone)]
pub struct UpdateOrderPublishing {
    pub response: OrderResponse,
}

/// What the caller does next when changing an order.
#[derive(Debug)]
pub enum UpdateOrderStep {
    /// Look the order up, then call `on_order`.
    FindOrder { flow: UpdateOrderFlow, order_id: i32 },
    /// Look the product up, then call `on_product`.
    FindProduct { flow: UpdateOrderFound, product_id: i32 },
    /// Store the change at this total, then call `on_updated`.
    StoreOrder { flow: UpdateOrderPriced, request: UpdateOrderRequest, total: i64 },
    /// Serialize the event and publish it on the topic under the key, then
    /// call `on_published`.
    Publish { flow: UpdateOrderPublishing, topic: String, key: String, event: OrderEvent },
    /// Answer.
    Finish { reply: Result<ApiResponse<OrderResponse>, ServiceError> },
}

/// The order lookup step of a change: an unknown order refuses it; else
/// its stored quantity is kept and the product is looked up.
pub open spec fn update_found_step(
    flow: UpdateOrderFlow,
    found: Result<Option<OrderRecord>, RepositoryError>,
    s: UpdateOrderStep,
) -> bool {
    match found {
        Err(e) => s matches UpdateOrderStep::Finish { reply } && repo_failure(reply, e),
        Ok(None) => s matches UpdateOrderStep::Finish { reply } && custom_failure(reply, "Order not found"@),
        Ok(Some(o)) => s matches UpdateOrderStep::FindProduct { flow: next, product_id } && {
            &&& next.request == flow.request
            &&& next.old_quantity == o.quantity
            &&& product_id == flow.request.product_id
        },
    }
}

/// The product lookup step of a change: an unknown product or a quantity
/// beyond the stock refuses it; else it is stored at the new quantity
/// times the unit price.
pub open spec fn update_priced_step(
    flow: UpdateOrderFound,
    found: Result<Option<ProductRecord>, RepositoryError>,
    s: UpdateOrderStep,
) -> bool {
    match found {
        Err(e) => s matches UpdateOrderStep::Finish { reply } && repo_failure(reply, e),
        Ok(None) => s matches UpdateOrderStep::Finish { reply } && custom_failure(reply, "Product not found"@),
        Ok(Some(p)) => if flow.request.quantity > p.stock {
            s matches UpdateOrderStep::Finish { reply } && custom_failure(reply, "Insufficient stock"@)
        } else {
            s matches UpdateOrderStep::StoreOrder { flow: next, request, total } && {
                &&& request == flow.request
                &&& next.request == flow.request
                &&& next.old_quantity == flow.old_quantity
                &&& total == order_total(flow.request.quantity as int, p.price as int)
                &&& next.total == total
            }
        },
    }
}

/// The store step of a change: the stored order is answered at the new
/// total; a changed quantity is published, keyed by the order's id, with
/// the old and the new quantity; an unchanged one is answered at once.
pub open spec fn update_stored_step(
    flow: UpdateOrderPriced,
    stored: Result<OrderRecord, RepositoryError>,
    s: UpdateOrderStep,
) -> bool {
    match stored {
        Err(e) => s matches UpdateOrderStep::Finish { reply } && repo_failure(reply, e),
        Ok(o) => if flow.request.quantity != flow.old_quantity {
            s matches UpdateOrderStep::Publish { flow: next, topic, key, event } && {
                &&& shows_order(next.response, o, flow.total as int)
                &&& topic@ == updated_topic()
                &&& key@ == int_decimal(o.order_id as int)
                &&& event == OrderEvent::Updated {
                    order_id: o.order_id,
                    product_id: o.product_id,
                    old_quantity: flow.old_quantity,
                    new_quantity: flow.request.quantity,
                }
            }
        } else {
            s matches UpdateOrderStep::Finish { reply: Ok(r) } && {
                &&& r.status@ == "success"@
                &&& r.message@ == "Order updated successfully"@
                &&& shows_order(r.data, o, flow.total as int)
            }
        },
    }
}

impl UpdateOrderFlow {
    /// Changing an order begins with the order lookup.
    pub fn start(request: UpdateOrderRequest) -> (s: UpdateOrderStep)
        ensures
            s matches UpdateOrderStep::FindOrder { flow, order_id } && flow.request == request
                && order_id == request.id,
    {
        UpdateOrderStep::FindOrder { flow: UpdateOrderFlow { request }, order_id: request.id }
    }

    /// The order lookup answered.
    pub fn on_order(self, found: Result<Option<OrderRecord>, RepositoryError>) -> (s: UpdateOrderStep)
        ensures
            update_found_step(self, found, s),
    {
        match found {
            Err(e) => UpdateOrderStep::Finish { reply: Err(ServiceError::Repo(e)) },
            Ok(None) => UpdateOrderStep::Finish { reply: Err(ServiceError::Custom(copy_str("Order not found"))) },
            Ok(Some(o)) => UpdateOrderStep::FindProduct {
                flow: UpdateOrderFound { request: self.request, old_quantity: o.quantity },
                product_id: self.request.product_id,
            },
        }
    }
}

impl UpdateOrderFound {
    /// The product lookup answered.
    pub fn on_product(self, found: Result<Option<ProductRecord>, RepositoryError>) -> (s: UpdateOrderStep)
        requires
            found matches Ok(Some(p)) ==> (self.request.quantity <= p.stock ==> total_fits(
                self.request.quantity,
                p.price,
            )),
        ensures
            update_priced_step(self, found, s),
    {
        match found {
            Err(e) => UpdateOrderStep::Finish { reply: Err(ServiceError::Repo(e)) },
            Ok(None) => UpdateOrderStep::Finish { reply: Err(ServiceError::Custom(copy_str("Product not found"))) },
            Ok(Some(p)) => {
                if self.request.quantity > p.stock {
                    UpdateOrderStep::Finish { reply: Err(ServiceError::Custom(copy_str("Insufficient stock"))) }
                } else {
                    let total = price_order(self.request.quantity, p.price);
                    UpdateOrderStep::StoreOrder {
                        flow: UpdateOrderPriced { request: self.request, old_quantity: self.old_quantity, total },
                        request: self.request,
                        total,
                    }
                }
            },
        }
    }
}

impl UpdateOrderPriced {
    /// The change was stored, or not.
    pub fn on_updated(self, stored: Result<OrderRecord, RepositoryError>) -> (s: UpdateOrderStep)
        ensures
            update_stored_step(self, stored, s),
    {
        match stored {
            Err(e) => UpdateOrderStep::Finish { reply: Err(ServiceError::Repo(e)) },
            Ok(o) => {
                let response = OrderResponse::from_record(&o, self.total);
                if self.request.quantity != self.old_quantity {
                    let key = i64_text(o.order_id as i64);
                    let event = OrderEvent::Updated {
                        order_id: o.order_id,
                        product_id: o.product_id,
                        old_quantity: self.old_quantity,
                        new_quantity: self.request.quantity,
                    };
                    UpdateOrderStep::Publish {
                        flow: UpdateOrderPublishing { response },
                        topic: copy_str("order.updated"),
                        key,
                        event,
                    }
                } else {
                    UpdateOrderStep::Finish { reply: Ok(success_reply("Order updated successfully", response)) }
                }
            },
        }
    }
}

impl UpdateOrderPublishing {
    /// The change event was handed over, or not: either failure fails the
    /// operation.
    pub fn on_published(self, outcome: PublishOutcome) -> (s: UpdateOrderStep)
        ensures
            match outcome {
                PublishOutcome::SerializeFailed(m) => s matches UpdateOrderStep::Finish { reply }
                    && custom_failure(reply, "Failed to serialize event: "@ + m@),
                PublishOutcome::PublishFailed(m) => s matches UpdateOrderStep::Finish {
                    reply: Err(ServiceError::Kafka(x)),
                } && x@ == m@,
                PublishOutcome::Published => s matches UpdateOrderStep::Finish { reply: Ok(r) }
                    && is_success_reply(r, "Order updated successfully"@, self.response),
            },
    {
        match outcome {
            PublishOutcome::SerializeFailed(m) => UpdateOrderStep::Finish { reply: Err(serialize_failure(m.as_str())) },
            PublishOutcome::PublishFailed(m) => UpdateOrderStep::Finish { reply: Err(ServiceError::Kafka(m)) },
            PublishOutcome::Published => UpdateOrderStep::Finish {
                reply: Ok(success_reply("Order updated successfully", self.response)),
            },
        }
    }
}

// ---------------------------------------------------------------- delete

/// An order being deleted for good.
#[derive(Debug, Clone, Copy)]
pub struct DeleteOrderFlow {
    pub order_id: i32,
}

/// An order being deleted whose row was found.
#[derive(Debug, Clone, Copy)]
pub struct DeleteOrderFound {
    pub order_id: i32,
    pub product_id: i32,
    pub quantity: i32,
}

/// What the caller does next when deleting an order.
#[derive(Debug)]
pub enum DeleteOrderStep {
    /// Look the order up, then call `on_order`.
    FindOrder { flow: DeleteOrderFlow, order_id: i32 },
    /// Delete the order, then call `on_deleted`.
    DeleteOrder { flow: DeleteOrderFound, order_id: i32 },
    /// Serialize the event and publish it on the topic under the key, then
    /// call `on_published`.
    Publish { flow: DeleteOrderFound, topic: String, key: String, event: OrderEvent },
    /// Answer.
    Finish { reply: Result<ApiResponse<()>, ServiceError> },
}

/// The lookup step of a deletion: an unknown order refuses it; else the
/// product and quantity of the order are kept and the order is deleted.
pub open spec fn delete_found_step(
    flow: DeleteOrderFlow,
    found: Result<Option<OrderRecord>, RepositoryError>,
    s: DeleteOrderStep,
) -> bool {
    match found {
        Err(e) => s matches DeleteOrderStep::Finish { reply } && repo_failure(reply, e),
        Ok(None) => s matches DeleteOrderStep::Finish { reply } && custom_failure(reply, "Order not found"@),
        Ok(Some(o)) => s matches DeleteOrderStep::DeleteOrder { flow: next, order_id } && {
            &&& order_id == flow.order_id
            &&& next.order_id == flow.order_id
            &&& next.product_id == o.product_id
            &&& next.quantity == o.quantity
        },
    }
}

/// The deletion step: once deleted, the deletion is published keyed by the
/// order's id, with the product and quantity it had.
pub open spec fn delete_done_step(flow: DeleteOrderFound, deleted: Result<(), RepositoryError>, s: DeleteOrderStep) -> bool {
    match deleted {
        Err(e) => s matches DeleteOrderStep::Finish { reply } && repo_failure(reply, e),
        Ok(()) => s matches DeleteOrderStep::Publish { flow: next, topic, key, event } && {
            &&& next == flow
            &&& topic@ == deleted_topic()
            &&& key@ == int_decimal(flow.order_id as int)
            &&& event == OrderEvent::Deleted {
                order_id: flow.order_id,
                product_id: flow.product_id,
                quantity: flow.quantity,
            }
        },
    }
}

impl DeleteOrderFlow {
    /// Deleting an order begins with its lookup.
    pub fn start(order_id: i32) -> (s: DeleteOrderStep)
        ensures
            s matches DeleteOrderStep::FindOrder { flow, order_id: id } && flow.order_id == order_id
                && id == order_id,
    {
        DeleteOrderStep::FindOrder { flow: DeleteOrderFlow { order_id }, order_id }
    }

    /// The order lookup answered.
    pub fn on_order(self, found: Result<Option<OrderRecord>, RepositoryError>) -> (s: DeleteOrderStep)
        ensures
            delete_found_step(self, found, s),
    {
        match found {
            Err(e) => DeleteOrderStep::Finish { reply: Err(ServiceError::Repo(e)) },
            Ok(None) => DeleteOrderStep::Finish { reply: Err(ServiceError::Custom(copy_str("Order not found"))) },
            Ok(Some(o)) => DeleteOrderStep::DeleteOrder {
                flow: DeleteOrderFound { order_id: self.order_id, product_id: o.product_id, quantity: o.quantity },
                order_id: self.order_id,
            },
        }
    }
}

impl DeleteOrderFound {
    /// The order was deleted, or not.
    pub fn on_deleted(self, deleted: Result<(), RepositoryError>) -> (s: DeleteOrderStep)
        ensures
            delete_done_step(self, deleted, s),
    {
        match deleted {
            Err(e) => DeleteOrderStep::Finish { reply: Err(ServiceError::Repo(e)) },
            Ok(()) => {
                let key = i64_text(self.order_id as i64);
                let event = OrderEvent::Deleted {
                    order_id: self.order_id,
                    product_id: self.product_id,
                    quantity: self.quantity,
                };
                DeleteOrderStep::Publish { flow: self, topic: copy_str("order.deleted"), key, event }
            },
        }
    }

    /// The deletion event was handed over, or not: either failure fails the
    /// operation.
    pub fn on_published(self, outcome: PublishOutcome) -> (s: DeleteOrderStep)
        ensures
            match outcome {
                PublishOutcome::SerializeFailed(m) => s matches DeleteOrderStep::Finish { reply }
                    && custom_failure(reply, "Failed to serialize event: "@ + m@),
                PublishOutcome::PublishFailed(m) => s matches DeleteOrderStep::Finish {
                    reply: Err(ServiceError::Kafka(x)),
                } && x@ == m@,
                PublishOutcome::Published => s matches DeleteOrderStep::Finish { reply: Ok(r) }
                    && is_success_reply(r, "Order deleted permanently"@, ()),
            },
    {
        match outcome {
            PublishOutcome::SerializeFailed(m) => DeleteOrderStep::Finish { reply: Err(serialize_failure(m.as_str())) },
            PublishOutcome::PublishFailed(m) => DeleteOrderStep::Finish { reply: Err(ServiceError::Kafka(m)) },
            PublishOutcome::Published => DeleteOrderStep::Finish {
                reply: Ok(success_reply("Order deleted permanently", ())),
            },
        }
    }
}

// ---------------------------------------------------------- single calls

/// The answer to trashing an order: the trashed row, or the repository's
/// error.
pub fn trash_order_reply(outcome: Result<OrderRecord, RepositoryError>) -> (r: Result<ApiResponse<OrderResponseDeleteAt>, ServiceError>)
    ensures
        match outcome {
            Err(e) => repo_failure(r, e),
            Ok(o) => r matches Ok(a) && a.status@ == "success"@
                && a.message@ == "Order moved to trash successfully"@ && shows_trashed_order(a.data, o),
        },
{
    match outcome {
        Err(e) => Err(ServiceError::Repo(e)),
        Ok(o) => Ok(success_reply("Order moved to trash successfully", OrderResponseDeleteAt::from_record(&o))),
    }
}

/// The answer to restoring an order: the restored row at its stored total,
/// or the repository's error.
pub fn restore_order_reply(outcome: Result<OrderRecord, RepositoryError>) -> (r: Result<ApiResponse<OrderResponse>, ServiceError>)
    ensures
        match outcome {
            Err(e) => repo_failure(r, e),
            Ok(o) => r matches Ok(a) && a.status@ == "success"@
                && a.message@ == "Order restored successfully"@ && shows_order(a.data, o, o.total as int),
        },
{
    match outcome {
        Err(e) => Err(ServiceError::Repo(e)),
        Ok(o) => Ok(success_reply("Order restored successfully", OrderResponse::from_record(&o, o.total))),
    }
}

/// The answer to restoring all trashed orders.
pub fn restore_all_orders_reply(outcome: Result<(), RepositoryError>) -> (r: Result<ApiResponse<()>, ServiceError>)
    ensures
        match outcome {
            Err(e) => repo_failure(r, e),
            Ok(()) => r matches Ok(a) && is_success_reply(a, "All Orders restored successfully"@, ()),
        },
{
    unit_reply(outcome, "All Orders restored successfully")
}

/// The answer to deleting all trashed orders for good.
pub fn delete_all_orders_reply(outcome: Result<(), RepositoryError>) -> (r: Result<ApiResponse<()>, ServiceError>)
    ensures
        match outcome {
            Err(e) => repo_failure(r, e),
            Ok(()) => r matches Ok(a) && is_success_reply(a, "All Orders deleted permanently"@, ()),
        },
{
    unit_reply(outcome, "All Orders deleted permanently")
}

// ------------------------------------------------------------------ laws

/// An order is only ever stored within the product's stock, and the order
/// answered after storing it is priced at the quantity times the unit
/// price, whatever total the stored row holds.
pub proof fn lemma_order_within_stock_at_price(
    flow: CreateOrderFlow,
    product: ProductRecord,
    s1: CreateOrderStep,
    stored: OrderRecord,
    s2: CreateOrderStep,
)
    requires
        create_priced_step(flow, Ok(Some(product)), s1),
        s1 matches CreateOrderStep::StoreOrder { .. },
        create_stored_step(s1->StoreOrder_flow, Ok(stored), s2),
    ensures
        flow.request.quantity <= product.stock,
        s2 matches CreateOrderStep::Publish { flow: p, .. } && p.response.total == order_total(
            flow.request.quantity as int,
            product.price as int,
        ),
{
}

/// A change of an order is told on the message bus exactly when it changes
/// the quantity the order had before the change; the event carries both
/// quantities.
pub proof fn lemma_update_published_iff_quantity_changed(
    flow: UpdateOrderFlow,
    old: OrderRecord,
    s1: UpdateOrderStep,
    product: ProductRecord,
    s2: UpdateOrderStep,
    stored: OrderRecord,
    s3: UpdateOrderStep,
)
    requires
        update_found_step(flow, Ok(Some(old)), s1),
        update_priced_step(s1->FindProduct_flow, Ok(Some(product)), s2),
        s2 matches UpdateOrderStep::StoreOrder { .. },
        update_stored_step(s2->StoreOrder_flow, Ok(stored), s3),
    ensures
        (s3 is Publish) <==> flow.request.quantity != old.quantity,
        s3 matches UpdateOrderStep::Publish { event, .. } ==> (event == (OrderEvent::Updated {
            order_id: stored.order_id,
            product_id: stored.product_id,
            old_quantity: old.quantity,
            new_quantity: flow.request.quantity,
        })),
{
}

/// The deletion event of an order carries the product and the quantity the
/// order had before it was deleted.
pub proof fn lemma_deleted_event_carries_order(
    flow: DeleteOrderFlow,
    old: OrderRecord,
    s1: DeleteOrderStep,
    s2: DeleteOrderStep,
)
    requires
        delete_found_step(flow, Ok(Some(old)), s1),
        delete_done_step(s1->DeleteOrder_flow, Ok(()), s2),
    ensures
        s2 matches DeleteOrderStep::Publish { event, .. } && event == (OrderEvent::Deleted {
            order_id: flow.order_id,
            product_id: old.product_id,
            quantity: old.quantity,
        }),
{
}

/// A change of an order is checked and priced against the product it asks
/// for: the product looked up is the request's product, whatever product
/// the stored order had, and when the repository answers with that
/// product, the change is stored only within its stock, at the new
/// quantity times its price.
pub proof fn lemma_update_priced_by_requested_product(
    flow: UpdateOrderFlow,
    old: OrderRecord,
    s1: UpdateOrderStep,
    product: ProductRecord,
    s2: UpdateOrderStep,
)
    requires
        update_found_step(flow, Ok(Some(old)), s1),
        s1 is FindProduct ==> product.product_id == s1->FindProduct_product_id,
        s1 is FindProduct ==> update_priced_step(s1->FindProduct_flow, Ok(Some(product)), s2),
    ensures
        s1 is FindProduct,
        s1->FindProduct_product_id == flow.request.product_id,
        product.product_id == flow.request.product_id,
        s2 is StoreOrder ==> flow.request.quantity <= product.stock && s2->StoreOrder_total
            == flow.request.quantity * product.price && s2->StoreOrder_request == flow.request,
        s2 is StoreOrder <==> flow.request.quantity <= product.stock,
{
}

/// An order is checked and priced against the product it asks for: the
/// product looked up is the request's, and when the repository answers
/// with that product the order is stored, as requested, exactly when the
/// quantity is within its stock, at the quantity times its price.
pub proof fn lemma_create_priced_by_requested_product(
    request: CreateOrderRequest,
    s1: CreateOrderStep,
    product: ProductRecord,
    s2: CreateOrderStep,
)
    requires
        create_started_step(request, s1),
        s1 is FindProduct ==> product.product_id == s1->FindProduct_product_id,
        s1 is FindProduct ==> create_priced_step(s1->FindProduct_flow, Ok(Some(product)), s2),
    ensures
        s1 is FindProduct,
        product.product_id == request.product_id,
        s2 is StoreOrder <==> request.quantity <= product.stock,
        s2 is StoreOrder ==> s2->StoreOrder_request == request && s2->StoreOrder_total == request.quantity
            * product.price,
{
}

} // verus!
