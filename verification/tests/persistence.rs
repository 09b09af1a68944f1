use rusty_order_service::errors::Error;
use rusty_order_service::errors::MissingFieldKind;
use rusty_order_service::line_item::LineItem;
use rusty_order_service::order::Confirmed;
use rusty_order_service::order::Created;
use rusty_order_service::order::Order;
use rusty_order_service::order::Shipped;
use rusty_order_service::repository::MemoryRepository;
use rusty_order_service::storage::reconstruct_variant;
use rusty_order_service::storage::OrderState;
use rusty_order_service::storage::PersistedOrder;

fn fresh_id() -> u128 {
    uuid::Uuid::new_v4().as_u128()
}

fn now_millis() -> i64 {
    chrono::Utc::now().timestamp_millis()
}

#[test]
fn save_order() {
    let mut repo = MemoryRepository::new();

    // Given: A new order
    let order = Order::new(fresh_id(), vec![LineItem::new(fresh_id(), 2)], now_millis())
        .expect("Failed to create order");

    // When: Saving the order
    let actual = repo.save(order.into());

    // Then: We expect no errors
    assert!(actual.is_ok());
}

#[test]
fn find_order() {
    let mut repo = MemoryRepository::new();

    // Given: A saved order
    let id = fresh_id();
    let expected = Order::new(id, vec![LineItem::new(fresh_id(), 2)], now_millis())
        .expect("Failed to create order");
    repo.save(expected.clone().into()).expect("Failed to save order");

    // When: find is called with order's id
    let actual: Order<Created> = repo.find_created(id).expect("Failed to find order");

    // Then: The order should be found
    assert_eq!(expected, actual);
}

#[test]
fn find_order_not_found() {
    let repo = MemoryRepository::new();

    // Given: An order ID that does not exist
    let id = fresh_id();

    // When: The order is to be fetched
    let result: Result<Order<Created>, _> = repo.find_created(id);

    // Then: We expect an error
    assert!(matches!(result, Err(Error::OrderNotFound(_))));
}

#[test]
fn find_order_wrong_state() {
    let mut repo = MemoryRepository::new();

    // Given: A saved order in the Created state.
    let id = fresh_id();
    let order = Order::new(id, vec![LineItem::new(fresh_id(), 2)], now_millis())
        .expect("Failed to create order");
    repo.save(order.into()).expect("Failed to save order");

    // When: We attempt to find the order expecting it to be Confirmed.
    let result: Result<Order<Confirmed>, _> = repo.find_confirmed(id);

    // Then: The conversion should fail with an InvalidOrderType error.
    assert!(matches!(result, Err(Error::InvalidOrderType { .. })));
}

#[test]
fn round_trip_created() {
    let order = Order::new(1, vec![LineItem::new(2, 3), LineItem::new(4, 5)], 100)
        .expect("Failed to create order");
    let rec = order.clone().flatten();
    let back = Order::<Created>::reconstruct(&rec).expect("round trip failed");
    assert_eq!(order, back);
}

#[test]
fn round_trip_confirmed() {
    let order = Order::new(1, vec![LineItem::new(2, 3)], 100)
        .expect("Failed to create order")
        .confirm(150);
    let rec = order.clone().flatten();
    let back = Order::<Confirmed>::reconstruct(&rec).expect("round trip failed");
    assert_eq!(order, back);
    assert_eq!(back.confirmed_at(), 150);
}

#[test]
fn round_trip_shipped() {
    let order = Order::new(1, vec![LineItem::new(2, 3)], 100)
        .expect("Failed to create order")
        .confirm(150)
        .ship(300, "TRK42".to_string());
    let rec = order.clone().flatten();
    let back = Order::<Shipped>::reconstruct(&rec).expect("round trip failed");
    assert_eq!(order, back);
    assert_eq!(back.tracking_id(), "TRK42".to_string());
    assert_eq!(back.confirmed_at(), 150);
    assert_eq!(back.shipped_at(), 300);
}

#[test]
fn round_trip_cancelled() {
    let order = Order::new(1, vec![LineItem::new(2, 3)], 100)
        .expect("Failed to create order")
        .cancel(200);
    let rec = order.clone().flatten();
    let back = Order::<rusty_order_service::order::Cancelled>::reconstruct(&rec)
        .expect("round trip failed");
    assert_eq!(order, back);
    assert_eq!(back.cancelled_at(), 200);
}

#[test]
fn missing_confirmed_at_is_corruption() {
    let rec = PersistedOrder {
        id: 1,
        items: vec![LineItem::new(2, 3)],
        created_at: 100,
        updated_at: 100,
        state: OrderState::Confirmed,
        confirmed_at: None,
        shipped_at: None,
        tracking_id: None,
        cancelled_at: None,
    };
    let typed = Order::<Confirmed>::reconstruct(&rec);
    assert_eq!(typed, Err(Error::MissingField(MissingFieldKind::ConfirmedAt)));
    let variant = reconstruct_variant(&rec);
    assert!(matches!(
        variant,
        Err(Error::MissingField(MissingFieldKind::ConfirmedAt))
    ));
}

#[test]
fn missing_tracking_id_is_corruption() {
    let rec = PersistedOrder {
        id: 1,
        items: vec![LineItem::new(2, 3)],
        created_at: 100,
        updated_at: 100,
        state: OrderState::Shipped,
        confirmed_at: Some(150),
        shipped_at: Some(300),
        tracking_id: None,
        cancelled_at: None,
    };
    let typed = Order::<Shipped>::reconstruct(&rec);
    assert_eq!(typed, Err(Error::MissingField(MissingFieldKind::TrackingId)));
}

#[test]
fn save_replaces_previous_record() {
    let mut repo = MemoryRepository::new();
    let first = Order::new(1, vec![LineItem::new(2, 3)], 100).expect("Failed to create order");
    repo.save(first.clone().into()).expect("Failed to save order");
    let second = first.confirm(150);
    repo.save(second.clone().into()).expect("Failed to save order");

    let as_created: Result<Order<Created>, _> = repo.find_created(1);
    assert!(matches!(as_created, Err(Error::InvalidOrderType { .. })));
    let as_confirmed = repo.find_confirmed(1).expect("Failed to find order");
    assert_eq!(second, as_confirmed);
}
