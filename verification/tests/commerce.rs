use ecommerce::errors::{RepositoryError, ServiceError};
use ecommerce::model::{OrderRecord, ProductRecord};
use ecommerce::order::{
    CreateOrderFlow, CreateOrderRequest, CreateOrderStep, DeleteOrderFlow, DeleteOrderStep, OrderEvent,
    PublishOutcome, UpdateOrderFlow, UpdateOrderRequest, UpdateOrderStep, delete_all_orders_reply, price_order,
    restore_all_orders_reply, restore_order_reply, trash_order_reply,
};
use ecommerce::product::{
    StockChange, StockStep, all_products_deleted_reply, all_products_restored_reply, product_created_reply,
    product_deleted_reply, product_restored_reply, product_trashed_reply, product_updated_reply, start_stock_change,
    stock_changed_reply,
};

fn product(stock: i32, price: i64) -> ProductRecord {
    ProductRecord {
        product_id: 5,
        name: "Lamp".to_string(),
        price,
        stock,
        created_at: None,
        updated_at: None,
        deleted_at: None,
    }
}

fn order(id: i32, quantity: i32, total: i64) -> OrderRecord {
    OrderRecord { order_id: id, product_id: 5, quantity, total, created_at: None, updated_at: None, deleted_at: Some("d".into()) }
}

fn create_flow(quantity: i32) -> CreateOrderFlow {
    match CreateOrderFlow::start(CreateOrderRequest { product_id: 5, quantity }) {
        CreateOrderStep::FindProduct { flow, product_id } => {
            assert_eq!(product_id, 5);
            flow
        }
        other => panic!("{:?}", other),
    }
}

#[test]
fn order_total_is_quantity_times_price() {
    assert_eq!(price_order(3, 250), 750);
    assert_eq!(price_order(0, 999), 0);
    assert_eq!(price_order(2, -5), -10);
}

#[test]
fn create_order_refusals() {
    match create_flow(11).on_product(Ok(Some(product(10, 100)))) {
        CreateOrderStep::Finish { reply: Err(ServiceError::Custom(m)) } => assert_eq!(m, "Insufficient stock"),
        other => panic!("{:?}", other),
    }
    match create_flow(1).on_product(Ok(None)) {
        CreateOrderStep::Finish { reply: Err(ServiceError::Custom(m)) } => assert_eq!(m, "Product not found"),
        other => panic!("{:?}", other),
    }
    match create_flow(1).on_product(Err(RepositoryError::NotFound)) {
        CreateOrderStep::Finish { reply: Err(ServiceError::Repo(RepositoryError::NotFound)) } => {}
        other => panic!("{:?}", other),
    }
}

#[test]
fn create_order_at_the_stock_limit() {
    let priced = match create_flow(10).on_product(Ok(Some(product(10, 100)))) {
        CreateOrderStep::StoreOrder { flow, request, total } => {
            assert_eq!((request.quantity, total), (10, 1000));
            flow
        }
        other => panic!("{:?}", other),
    };
    // The stored row's total is overridden by the computed price.
    let publishing = match priced.on_stored(Ok(order(77, 10, 1))) {
        CreateOrderStep::Publish { flow, topic, key, event } => {
            assert_eq!((topic.as_str(), key.as_str()), ("order.created", "77"));
            assert!(matches!(event, OrderEvent::Created { order_id: 77, product_id: 5, quantity: 10 }));
            assert_eq!(flow.response.total, 1000);
            flow
        }
        other => panic!("{:?}", other),
    };
    match publishing.clone().on_published(PublishOutcome::PublishFailed("down".into())) {
        CreateOrderStep::Finish { reply: Ok(r) } => {
            assert_eq!(r.message, "Order created successfully");
            assert_eq!(r.data.total, 1000);
        }
        other => panic!("{:?}", other),
    }
    match publishing.on_published(PublishOutcome::SerializeFailed("eof".into())) {
        CreateOrderStep::Finish { reply: Err(ServiceError::Custom(m)) } => assert_eq!(m, "Failed to serialize event: eof"),
        other => panic!("{:?}", other),
    }
}

fn update_to_store(new_quantity: i32, old_quantity: i32) -> UpdateOrderStep {
    let flow = match UpdateOrderFlow::start(UpdateOrderRequest { id: 8, product_id: 5, quantity: new_quantity }) {
        UpdateOrderStep::FindOrder { flow, order_id } => {
            assert_eq!(order_id, 8);
            flow
        }
        other => panic!("{:?}", other),
    };
    let found = match flow.on_order(Ok(Some(order(8, old_quantity, 0)))) {
        UpdateOrderStep::FindProduct { flow, product_id } => {
            assert_eq!((product_id, flow.old_quantity), (5, old_quantity));
            flow
        }
        other => panic!("{:?}", other),
    };
    let priced = match found.on_product(Ok(Some(product(50, 20)))) {
        UpdateOrderStep::StoreOrder { flow, total, .. } => {
            assert_eq!(total, 20 * new_quantity as i64);
            flow
        }
        other => panic!("{:?}", other),
    };
    priced.on_updated(Ok(order(8, new_quantity, 0)))
}

#[test]
fn update_publishes_only_a_changed_quantity() {
    match update_to_store(3, 3) {
        UpdateOrderStep::Finish { reply: Ok(r) } => {
            assert_eq!(r.message, "Order updated successfully");
            assert_eq!(r.data.total, 60);
        }
        other => panic!("{:?}", other),
    }
    let publishing = match update_to_store(4, 3) {
        UpdateOrderStep::Publish { flow, topic, key, event } => {
            assert_eq!((topic.as_str(), key.as_str()), ("order.updated", "8"));
            assert!(matches!(
                event,
                OrderEvent::Updated { order_id: 8, product_id: 5, old_quantity: 3, new_quantity: 4 }
            ));
            flow
        }
        other => panic!("{:?}", other),
    };
    match publishing.clone().on_published(PublishOutcome::PublishFailed("broker".into())) {
        UpdateOrderStep::Finish { reply: Err(ServiceError::Kafka(m)) } => assert_eq!(m, "broker"),
        other => panic!("{:?}", other),
    }
    match publishing.on_published(PublishOutcome::Published) {
        UpdateOrderStep::Finish { reply: Ok(r) } => assert_eq!(r.data.total, 80),
        other => panic!("{:?}", other),
    }
}

#[test]
fn update_refusals() {
    let flow = match UpdateOrderFlow::start(UpdateOrderRequest { id: 8, product_id: 5, quantity: 1 }) {
        UpdateOrderStep::FindOrder { flow, .. } => flow,
        other => panic!("{:?}", other),
    };
    match flow.on_order(Ok(None)) {
        UpdateOrderStep::Finish { reply: Err(ServiceError::Custom(m)) } => assert_eq!(m, "Order not found"),
        other => panic!("{:?}", other),
    }
}

#[test]
fn delete_order_publishes_what_it_deleted() {
    let flow = match DeleteOrderFlow::start(21) {
        DeleteOrderStep::FindOrder { flow, order_id } => {
            assert_eq!(order_id, 21);
            flow
        }
        other => panic!("{:?}", other),
    };
    match flow.on_order(Ok(None)) {
        DeleteOrderStep::Finish { reply: Err(ServiceError::Custom(m)) } => assert_eq!(m, "Order not found"),
        other => panic!("{:?}", other),
    }
    let found = match flow.on_order(Ok(Some(order(21, 6, 60)))) {
        DeleteOrderStep::DeleteOrder { flow, order_id } => {
            assert_eq!(order_id, 21);
            flow
        }
        other => panic!("{:?}", other),
    };
    match found.on_deleted(Err(RepositoryError::NotFound)) {
        DeleteOrderStep::Finish { reply: Err(ServiceError::Repo(RepositoryError::NotFound)) } => {}
        other => panic!("{:?}", other),
    }
    let published = match found.on_deleted(Ok(())) {
        DeleteOrderStep::Publish { flow, topic, key, event } => {
            assert_eq!((topic.as_str(), key.as_str()), ("order.deleted", "21"));
            assert!(matches!(event, OrderEvent::Deleted { order_id: 21, product_id: 5, quantity: 6 }));
            flow
        }
        other => panic!("{:?}", other),
    };
    match published.on_published(PublishOutcome::Published) {
        DeleteOrderStep::Finish { reply: Ok(r) } => assert_eq!(r.message, "Order deleted permanently"),
        other => panic!("{:?}", other),
    }
    match published.on_published(PublishOutcome::PublishFailed("x".into())) {
        DeleteOrderStep::Finish { reply: Err(ServiceError::Kafka(m)) } => assert_eq!(m, "x"),
        other => panic!("{:?}", other),
    }
}

#[test]
fn order_single_call_replies() {
    let r = trash_order_reply(Ok(order(1, 2, 30))).unwrap();
    assert_eq!((r.message.as_str(), r.data.deleted_at.as_deref()), ("Order moved to trash successfully", Some("d")));
    let r = restore_order_reply(Ok(order(1, 2, 30))).unwrap();
    assert_eq!((r.message.as_str(), r.data.total), ("Order restored successfully", 30));
    assert_eq!(restore_all_orders_reply(Ok(())).unwrap().message, "All Orders restored successfully");
    assert_eq!(delete_all_orders_reply(Ok(())).unwrap().message, "All Orders deleted permanently");
    assert!(matches!(delete_all_orders_reply(Err(RepositoryError::NotFound)), Err(ServiceError::Repo(RepositoryError::NotFound))));
}

#[test]
fn stock_changes_need_a_positive_quantity() {
    match start_stock_change(StockChange::Increase, 5, 0) {
        StockStep::Finish { reply: Err(ServiceError::Custom(m)) } => assert_eq!(m, "Quantity to increase must be positive"),
        other => panic!("{:?}", other),
    }
    match start_stock_change(StockChange::Decrease, 5, -2) {
        StockStep::Finish { reply: Err(ServiceError::Custom(m)) } => assert_eq!(m, "Quantity to decrease must be positive"),
        other => panic!("{:?}", other),
    }
    match start_stock_change(StockChange::Decrease, 5, 3) {
        StockStep::ChangeStock { change, product_id, qty } => assert_eq!((change, product_id, qty), (StockChange::Decrease, 5, 3)),
        other => panic!("{:?}", other),
    }
    let r = stock_changed_reply(StockChange::Increase, Ok(product(13, 7))).unwrap();
    assert_eq!((r.message.as_str(), r.data.stock), ("Product stock increased successfully", 13));
    let r = stock_changed_reply(StockChange::Decrease, Ok(product(1, 7))).unwrap();
    assert_eq!(r.message, "Product stock decreased successfully");
    assert!(product_created_reply(Err(RepositoryError::Custom("c".into()))).is_err());
    assert_eq!(product_created_reply(Ok(product(1, 2))).unwrap().message, "Product created successfully");
    assert_eq!(product_updated_reply(Ok(product(1, 2))).unwrap().message, "Product updated successfully");
    let r = product_trashed_reply(Ok(product(1, 2))).unwrap();
    assert_eq!((r.message.as_str(), r.data.name.as_str()), ("Product moved to trash successfully", "Lamp"));
    assert_eq!(product_restored_reply(Ok(product(1, 2))).unwrap().message, "Product restored successfully");
    assert_eq!(product_deleted_reply(Ok(())).unwrap().message, "Product deleted permanently");
    assert_eq!(all_products_restored_reply(Ok(())).unwrap().message, "All Products restored successfully");
    assert_eq!(all_products_deleted_reply(Ok(())).unwrap().message, "All Products deleted permanently");
}
