use rusty_order_service::errors::Error;
use rusty_order_service::line_item::LineItem;
use rusty_order_service::order::OrderVariant;
use rusty_order_service::repository::MemoryRepository;
use rusty_order_service::service::OrderService;
use rusty_order_service::storage::OrderState;

fn service() -> OrderService {
    OrderService::new(MemoryRepository::new())
}

#[test]
fn create_nonempty_stores_created_order() {
    let mut svc = service();
    let items = vec![LineItem::new(7, 2), LineItem::new(8, 1)];
    let id = svc.create_at(9, 100, items.clone()).expect("create failed");
    assert_eq!(id, 9);
    match svc.get(9).expect("get failed") {
        OrderVariant::Created(order) => {
            assert_eq!(order.id, 9);
            assert_eq!(order.line_items, items);
            assert_eq!(order.created_at, 100);
            assert_eq!(order.updated_at, 100);
        },
        other => panic!("expected a Created order, got {:?}", other),
    }
}

#[test]
fn create_with_random_id_stores_created_order() {
    let mut svc = service();
    let items = vec![LineItem::new(7, 2)];
    let id = svc.create(items.clone()).expect("create failed");
    match svc.get(id).expect("get failed") {
        OrderVariant::Created(order) => {
            assert_eq!(order.id, id);
            assert_eq!(order.line_items, items);
            assert_eq!(order.created_at, order.updated_at);
        },
        other => panic!("expected a Created order, got {:?}", other),
    }
}

#[test]
fn create_empty_fails_and_stores_nothing() {
    let mut svc = service();
    let r = svc.create_at(9, 100, vec![]);
    assert_eq!(r, Err(Error::EmptyOrder));
    assert_eq!(svc.get(9), Err(Error::OrderNotFound(9)));

    let r2 = svc.create(vec![]);
    assert_eq!(r2, Err(Error::EmptyOrder));
}

#[test]
fn add_line_item_increases_count_and_bumps_updated_at() {
    let mut svc = service();
    svc.create_at(9, 100, vec![LineItem::new(7, 2)]).expect("create failed");
    svc.add_line_item_at(9, LineItem::new(8, 5), 120).expect("add failed");
    match svc.get(9).expect("get failed") {
        OrderVariant::Created(order) => {
            assert_eq!(order.line_items.len(), 2);
            assert_eq!(order.line_items[1], LineItem::new(8, 5));
            assert_eq!(order.created_at, 100);
            assert_eq!(order.updated_at, 120);
        },
        other => panic!("expected a Created order, got {:?}", other),
    }
}

#[test]
fn add_line_item_rejects_confirmed_order() {
    let mut svc = service();
    svc.create_at(9, 100, vec![LineItem::new(7, 2)]).expect("create failed");
    svc.confirm_at(9, 150).expect("confirm failed");
    let r = svc.add_line_item_at(9, LineItem::new(8, 5), 160);
    assert_eq!(r, Err(Error::InvalidOrderType { id: 9, actual: OrderState::Confirmed }));
}

#[test]
fn remove_non_last_item_keeps_created() {
    let mut svc = service();
    svc.create_at(9, 100, vec![LineItem::new(7, 2), LineItem::new(8, 1)])
        .expect("create failed");
    svc.remove_line_item_at(9, 7, 130).expect("remove failed");
    match svc.get(9).expect("get failed") {
        OrderVariant::Created(order) => {
            assert_eq!(order.line_items, vec![LineItem::new(8, 1)]);
            assert_eq!(order.updated_at, 130);
        },
        other => panic!("expected a Created order, got {:?}", other),
    }
}

#[test]
fn remove_last_item_cancels_order() {
    let mut svc = service();
    svc.create_at(9, 100, vec![LineItem::new(7, 2)]).expect("create failed");
    svc.remove_line_item_at(9, 7, 130).expect("remove failed");
    match svc.get(9).expect("get failed") {
        OrderVariant::Cancelled(order) => {
            assert_eq!(order.line_items.len(), 0);
            assert_eq!(order.cancelled_at(), 130);
        },
        other => panic!("expected a Cancelled order, got {:?}", other),
    }
}

#[test]
fn remove_then_remove_remaining_cancels() {
    // Create with two items, remove one: still Created with one item.
    // Remove the remaining one: the order is Cancelled.
    let mut svc = service();
    let id = svc
        .create(vec![LineItem::new(7, 2), LineItem::new(8, 1)])
        .expect("create failed");
    svc.remove_line_item(id, 7).expect("remove failed");
    match svc.get(id).expect("get failed") {
        OrderVariant::Created(order) => assert_eq!(order.line_items.len(), 1),
        other => panic!("expected a Created order, got {:?}", other),
    }
    svc.remove_line_item(id, 8).expect("remove failed");
    assert!(matches!(svc.get(id), Ok(OrderVariant::Cancelled(_))));
}

#[test]
fn confirm_non_created_fails_and_changes_nothing() {
    let mut svc = service();
    svc.create_at(9, 100, vec![LineItem::new(7, 2)]).expect("create failed");
    svc.confirm_at(9, 150).expect("confirm failed");

    // Confirmed: a second confirm fails and the stored order is untouched.
    let r = svc.confirm_at(9, 200);
    assert_eq!(r, Err(Error::InvalidOrderType { id: 9, actual: OrderState::Confirmed }));
    match svc.get(9).expect("get failed") {
        OrderVariant::Confirmed(order) => assert_eq!(order.confirmed_at(), 150),
        other => panic!("expected a Confirmed order, got {:?}", other),
    }

    // Shipped: confirm fails.
    svc.ship(9, 300, "TRK9".to_string()).expect("ship failed");
    let r = svc.confirm_at(9, 350);
    assert_eq!(r, Err(Error::InvalidOrderType { id: 9, actual: OrderState::Shipped }));

    // Cancelled: confirm fails.
    svc.create_at(10, 100, vec![LineItem::new(7, 2)]).expect("create failed");
    svc.cancel_at(10, 120).expect("cancel failed");
    let r = svc.confirm_at(10, 130);
    assert_eq!(r, Err(Error::InvalidOrderType { id: 10, actual: OrderState::Cancelled }));
}

#[test]
fn cancel_from_created_and_confirmed() {
    let mut svc = service();
    svc.create_at(1, 100, vec![LineItem::new(7, 2)]).expect("create failed");
    svc.cancel_at(1, 110).expect("cancel failed");
    assert!(matches!(svc.get(1), Ok(OrderVariant::Cancelled(_))));

    svc.create_at(2, 100, vec![LineItem::new(7, 2)]).expect("create failed");
    svc.confirm_at(2, 150).expect("confirm failed");
    svc.cancel_at(2, 160).expect("cancel failed");
    assert!(matches!(svc.get(2), Ok(OrderVariant::Cancelled(_))));

    // Shipped orders are terminal: cancel fails.
    svc.create_at(3, 100, vec![LineItem::new(7, 2)]).expect("create failed");
    svc.confirm_at(3, 150).expect("confirm failed");
    svc.ship(3, 300, "TRK3".to_string()).expect("ship failed");
    let r = svc.cancel_at(3, 310);
    assert_eq!(r, Err(Error::InvalidOrderType { id: 3, actual: OrderState::Shipped }));
}

#[test]
fn ship_succeeds_only_from_confirmed() {
    let mut svc = service();
    svc.create_at(9, 100, vec![LineItem::new(7, 2)]).expect("create failed");

    // Created: ship fails.
    let r = svc.ship(9, 300, "TRK1".to_string());
    assert_eq!(r, Err(Error::InvalidOrderType { id: 9, actual: OrderState::Created }));

    // Confirmed: ship succeeds and the shipped data round-trips exactly.
    svc.confirm_at(9, 150).expect("confirm failed");
    svc.ship(9, 300, "TRK1".to_string()).expect("ship failed");
    match svc.get(9).expect("get failed") {
        OrderVariant::Shipped(order) => {
            assert_eq!(order.tracking_id(), "TRK1".to_string());
            assert_eq!(order.confirmed_at(), 150);
            assert_eq!(order.shipped_at(), 300);
        },
        other => panic!("expected a Shipped order, got {:?}", other),
    }

    // Missing order: ship reports OrderNotFound.
    let r = svc.ship(77, 300, "TRK1".to_string());
    assert_eq!(r, Err(Error::OrderNotFound(77)));
}

#[test]
fn end_to_end_create_confirm_ship() {
    // create with one line item (qty=1), confirm, ship with tracking id
    // "TRK1": get returns Shipped with that tracking id and
    // confirmed_at <= shipped_at.
    let mut svc = service();
    let id = svc.create(vec![LineItem::new(7, 1)]).expect("create failed");
    svc.confirm(id).expect("confirm failed");
    let shipped_at = chrono::Utc::now().timestamp_millis();
    svc.ship(id, shipped_at, "TRK1".to_string()).expect("ship failed");
    match svc.get(id).expect("get failed") {
        OrderVariant::Shipped(order) => {
            assert_eq!(order.tracking_id(), "TRK1".to_string());
            assert!(order.confirmed_at() <= order.shipped_at());
        },
        other => panic!("expected a Shipped order, got {:?}", other),
    }
}

#[test]
fn operations_on_missing_order_report_not_found() {
    let mut svc = service();
    assert_eq!(svc.add_line_item(5, LineItem::new(7, 2)), Err(Error::OrderNotFound(5)));
    assert_eq!(svc.remove_line_item(5, 7), Err(Error::OrderNotFound(5)));
    assert_eq!(svc.confirm(5), Err(Error::OrderNotFound(5)));
    assert_eq!(svc.cancel(5), Err(Error::OrderNotFound(5)));
    assert_eq!(svc.get(5), Err(Error::OrderNotFound(5)));
}

#[test]
fn variant_reports_id_and_state() {
    let mut svc = service();
    svc.create_at(9, 100, vec![LineItem::new(7, 2)]).expect("create failed");
    let v = svc.get(9).expect("get failed");
    assert_eq!(v.id(), 9);
    assert_eq!(v.state(), OrderState::Created);
}
