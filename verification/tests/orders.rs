use shopfront::money::{checked_add, checked_mul, Amount};
use shopfront::order::{
    cancel_access, cancelled_reply, decide_cancel, decide_status_update, evaluate_order,
    needs_restock_alert, order_item_records, place_order_access, plan_order, status_updated_reply,
    stock_returns, stock_takes, try_plan_order, OrderEvaluation, OrderOwnership, OrderRequest,
    OrderStatus, ProductOrderRequest, ProductSnapshot, StoredItem, update_status_access,
};
use shopfront::auth::Claims;
use shopfront::reply::{BodyKind, Status};
use std::collections::HashMap;

fn claims(role: &str) -> Claims {
    Claims { sub: "u-1".to_string(), email: "a@b.co".to_string(), role: role.to_string(), exp: 0 }
}

fn item(id: &str, q: i32) -> ProductOrderRequest {
    ProductOrderRequest { product_id: id.to_string(), quantity: q }
}

fn listed(name: &str, mantissa: i128, scale: u32, stock: i32) -> Option<ProductSnapshot> {
    Some(ProductSnapshot {
        name: name.to_string(),
        price: Amount { mantissa, scale },
        stock,
        status: Some("listed".to_string()),
    })
}

fn request(items: Vec<ProductOrderRequest>) -> OrderRequest {
    OrderRequest {
        user_id: "5bc3baa6".to_string(),
        shipping_address: "123, MG Road, Mumbai, India".to_string(),
        products: items,
    }
}

#[test]
fn readme_order_totals_sixty_six() {
    let req = request(vec![item("7d59b10f", 2)]);
    let lookups = vec![listed("Mankcdgede's Dryer", 3300, 2, 10)];
    let plan = plan_order("e2f703cf", &req, &lookups).unwrap();
    assert_eq!(plan.total_amount, Amount { mantissa: 6600, scale: 2 });
    assert_eq!(plan.products.len(), 1);
    assert_eq!(plan.products[0].order_id, "e2f703cf");
    assert_eq!(plan.products[0].product_id, "7d59b10f");
    assert_eq!(plan.products[0].product_name, "Mankcdgede's Dryer");
    assert_eq!(plan.products[0].quantity, 2);
    assert_eq!(plan.products[0].total_price, Amount { mantissa: 6600, scale: 2 });
    assert_eq!(plan.user_id, "5bc3baa6");
    assert_eq!(plan.shipping_address, "123, MG Road, Mumbai, India");
}

#[test]
fn order_total_is_sum_of_lines() {
    let req = request(vec![item("a", 2), item("b", 3), item("c", 1)]);
    let lookups = vec![
        listed("A", 1050, 2, 5),
        listed("B", 199, 2, 5),
        listed("C", 1, 2, 5),
    ];
    let plan = plan_order("o", &req, &lookups).unwrap();
    // 10.50*2 + 1.99*3 + 0.01*1 = 21.00 + 5.97 + 0.01 = 26.98
    assert_eq!(plan.total_amount, Amount { mantissa: 2698, scale: 2 });
    assert_eq!(plan.products[1].total_price, Amount { mantissa: 597, scale: 2 });
}

#[test]
fn mixed_scale_prices_add_up() {
    // 1.5 * 2 + 0.25 * 1 = 3.25
    let req = request(vec![item("a", 2), item("b", 1)]);
    let lookups = vec![listed("A", 15, 1, 5), listed("B", 25, 2, 5)];
    let plan = plan_order("o", &req, &lookups).unwrap();
    assert_eq!(plan.products[0].total_price, Amount { mantissa: 30, scale: 1 });
    assert_eq!(plan.total_amount, Amount { mantissa: 325, scale: 2 });
    assert_eq!(checked_add(Amount { mantissa: 30, scale: 1 }, Amount { mantissa: 25, scale: 2 }), Some(Amount { mantissa: 325, scale: 2 }));
}

#[test]
fn zero_quantity_line_costs_zero() {
    let req = request(vec![item("a", 0)]);
    let lookups = vec![listed("A", 1050, 2, 5)];
    let plan = plan_order("o", &req, &lookups).unwrap();
    assert_eq!(plan.products[0].total_price, Amount { mantissa: 0, scale: 0 });
    assert_eq!(plan.total_amount.mantissa, 0);
}

#[test]
fn missing_product_is_refused() {
    let req = request(vec![item("nope", 1)]);
    let lookups = vec![None];
    let err = plan_order("o", &req, &lookups).unwrap_err();
    assert_eq!(err.status, Status::BadRequest);
    assert_eq!(err.kind, BodyKind::JsonError);
    assert_eq!(err.message, "Product with ID nope not found");
}

#[test]
fn unlisted_product_is_refused() {
    let req = request(vec![item("a", 1)]);
    let lookups = vec![Some(ProductSnapshot {
        name: "Lamp".to_string(),
        price: Amount { mantissa: 100, scale: 2 },
        stock: 9,
        status: Some("unlisted".to_string()),
    })];
    let err = plan_order("o", &req, &lookups).unwrap_err();
    assert_eq!(err.message, "Product 'Lamp' is unavailable");
    let none_status = vec![Some(ProductSnapshot {
        name: "Lamp".to_string(),
        price: Amount { mantissa: 100, scale: 2 },
        stock: 9,
        status: None,
    })];
    assert_eq!(plan_order("o", &req, &none_status).unwrap_err().message, "Product 'Lamp' is unavailable");
}

#[test]
fn short_stock_is_refused_with_count() {
    let req = request(vec![item("a", 5)]);
    let lookups = vec![listed("Lamp", 100, 2, 4)];
    let err = plan_order("o", &req, &lookups).unwrap_err();
    assert_eq!(err.message, "Only 4 units available for 'Lamp'");
    let neg = vec![listed("Lamp", 100, 2, -12)];
    assert_eq!(plan_order("o", &req, &neg).unwrap_err().message, "Only -12 units available for 'Lamp'");
}

#[test]
fn first_refused_line_wins() {
    let req = request(vec![item("a", 1), item("b", 99), item("c", 1)]);
    let lookups = vec![listed("A", 100, 2, 5), listed("B", 100, 2, 5), None];
    assert_eq!(plan_order("o", &req, &lookups).unwrap_err().message, "Only 5 units available for 'B'");
}

#[test]
fn overflowing_order_is_reported() {
    let max: i128 = 0xFFFF_FFFF_FFFF_FFFF_FFFF_FFFF;
    let req = request(vec![item("a", 2)]);
    let lookups = vec![listed("Huge", max, 0, 5)];
    assert!(try_plan_order("o", &req, &lookups).is_none());
    assert!(matches!(evaluate_order("o", &req, &lookups), OrderEvaluation::Overflow));
    let ok = vec![listed("Small", 5, 0, 5)];
    assert!(try_plan_order("o", &req, &ok).unwrap().is_ok());
}

#[test]
fn decimal_arithmetic_matches_rust_decimal() {
    let a = Amount { mantissa: 3300, scale: 2 };
    let q = Amount::from_i32(2);
    assert_eq!(checked_mul(a, q), Some(Amount { mantissa: 6600, scale: 2 }));
    assert_eq!(checked_add(Amount::new(0, 2), Amount { mantissa: 6600, scale: 2 }), Some(Amount { mantissa: 6600, scale: 2 }));
    assert_eq!(checked_add(Amount { mantissa: 150, scale: 2 }, Amount { mantissa: 5, scale: 1 }), Some(Amount { mantissa: 200, scale: 2 }));
    assert_eq!(checked_mul(a, Amount::from_i32(0)), Some(Amount { mantissa: 0, scale: 0 }));
    let max: i128 = 0xFFFF_FFFF_FFFF_FFFF_FFFF_FFFF;
    assert_eq!(checked_add(Amount { mantissa: max, scale: 0 }, Amount { mantissa: 1, scale: 0 }), None);
}

#[test]
fn only_customers_place_orders() {
    assert!(place_order_access(Some(&claims("customer"))).is_ok());
    let e = place_order_access(Some(&claims("admin"))).unwrap_err();
    assert_eq!((e.status, e.kind, e.message.as_str()), (Status::Forbidden, BodyKind::Text, "Only customers can place orders"));
    let e = place_order_access(None).unwrap_err();
    assert_eq!((e.status, e.message.as_str()), (Status::Unauthorized, "Unauthorized access"));
}

#[test]
fn cancel_restores_stock_on_concrete_order() {
    let req = request(vec![item("a", 2), item("b", 1), item("a", 3)]);
    let lookups = vec![listed("A", 100, 2, 10), listed("B", 100, 2, 10), listed("A", 100, 2, 10)];
    let plan = plan_order("o", &req, &lookups).unwrap();
    let mut stock: HashMap<String, i64> = HashMap::new();
    stock.insert("a".to_string(), 10);
    stock.insert("b".to_string(), 7);
    let before = stock.clone();
    for m in stock_takes(&plan) {
        *stock.get_mut(&m.product_id).unwrap() -= m.quantity as i64;
    }
    assert_eq!(stock["a"], 5);
    let ids = vec!["i1".to_string(), "i2".to_string(), "i3".to_string()];
    let records = order_item_records(&plan, &ids);
    assert_eq!(records[2].id, "i3");
    assert_eq!(records[2].quantity, 3);
    let rows: Vec<StoredItem> = records
        .iter()
        .map(|r| StoredItem { product_id: Some(r.product_id.clone()), quantity: Some(r.quantity) })
        .collect();
    for m in stock_returns(&rows) {
        *stock.get_mut(&m.product_id).unwrap() += m.quantity as i64;
    }
    assert_eq!(stock, before);
}

#[test]
fn rows_without_product_or_quantity_return_nothing() {
    let rows = vec![
        StoredItem { product_id: None, quantity: Some(3) },
        StoredItem { product_id: Some("x".to_string()), quantity: None },
        StoredItem { product_id: Some("y".to_string()), quantity: Some(4) },
    ];
    let moves = stock_returns(&rows);
    assert_eq!(moves.len(), 1);
    assert_eq!(moves[0].product_id, "y");
    assert_eq!(moves[0].quantity, 4);
}

#[test]
fn restock_alert_at_three_or_less() {
    assert!(needs_restock_alert(3));
    assert!(needs_restock_alert(-1));
    assert!(!needs_restock_alert(4));
}

#[test]
fn admin_status_updates() {
    assert!(update_status_access(Some(&claims("admin"))).is_ok());
    let e = update_status_access(Some(&claims("customer"))).unwrap_err();
    assert_eq!((e.status, e.kind, e.message.as_str()), (Status::Forbidden, BodyKind::JsonError, "Only admins can update order status"));
    let pending = Some(Some("pending".to_string()));
    assert_eq!(decide_status_update(&pending, "SHIPPED").unwrap(), "shipped");
    assert_eq!(decide_status_update(&pending, "Delivered").unwrap(), "delivered");
    let e = decide_status_update(&pending, "cancelled").unwrap_err();
    assert_eq!(e.message, "Invalid status for admin update");
    let e = decide_status_update(&None, "shipped").unwrap_err();
    assert_eq!((e.status, e.message.as_str()), (Status::NotFound, "Order not found"));
    let e = decide_status_update(&Some(None), "shipped").unwrap_err();
    assert_eq!(e.message, "Order has no status set");
    let r = status_updated_reply("shipped");
    assert_eq!((r.status, r.kind, r.message.as_str()), (Status::Success, BodyKind::JsonMessage, "Order status updated to shipped"));
}

#[test]
fn final_orders_never_change() {
    for s in ["delivered", "cancelled"] {
        let cur = Some(Some(s.to_string()));
        let e = decide_status_update(&cur, "shipped").unwrap_err();
        assert_eq!(e.message, format!("Cannot change status from {}", s));
        let o = Some(OrderOwnership { status: Some(s.to_string()), user_id: Some("u-1".to_string()) });
        let e = decide_cancel("u-1", &o).unwrap_err();
        assert_eq!(e.message, format!("Cannot cancel order with status {}", s));
    }
}

#[test]
fn cancel_rules() {
    assert_eq!(cancel_access(Some(&claims("user"))).unwrap(), "u-1");
    let e = cancel_access(Some(&claims("customer"))).unwrap_err();
    assert_eq!((e.status, e.message.as_str()), (Status::Forbidden, "customer cancel route"));
    let e = cancel_access(None).unwrap_err();
    assert_eq!((e.status, e.message.as_str()), (Status::Unauthorized, "anauthorized access"));
    let mine = Some(OrderOwnership { status: Some("pending".to_string()), user_id: Some("u-1".to_string()) });
    assert!(decide_cancel("u-1", &mine).is_ok());
    let e = decide_cancel("u-2", &mine).unwrap_err();
    assert_eq!((e.status, e.message.as_str()), (Status::Forbidden, "You can only cancel your own orders"));
    let e = decide_cancel("u-1", &None).unwrap_err();
    assert_eq!(e.status, Status::NotFound);
    let orphan = Some(OrderOwnership { status: Some("pending".to_string()), user_id: None });
    assert_eq!(decide_cancel("u-1", &orphan).unwrap_err().message, "Order has no associated user");
    let blank = Some(OrderOwnership { status: None, user_id: Some("u-1".to_string()) });
    assert_eq!(decide_cancel("u-1", &blank).unwrap_err().message, "Order has no status set");
    assert_eq!(cancelled_reply().message, "Order cancelled successfully");
}

#[test]
fn order_constants() {
    assert_eq!(shopfront::order::initial_status(), "pending");
    assert_eq!(OrderStatus::from(shopfront::order::initial_status()), OrderStatus::Pending);
    assert_eq!(shopfront::order::cancelled_status(), "cancelled");
    assert_eq!(shopfront::order::order_placed_message(), "Order placed successfully");
}

#[test]
fn order_status_from_names() {
    assert_eq!(OrderStatus::from("pending"), OrderStatus::Pending);
    assert_eq!(OrderStatus::from("shipped"), OrderStatus::Shipped);
    assert_eq!(OrderStatus::from("delivered"), OrderStatus::Delivered);
    assert_eq!(OrderStatus::from("cancelled"), OrderStatus::Cancelled);
    assert_eq!(OrderStatus::from("Shipped"), OrderStatus::Pending);
    assert_eq!(OrderStatus::from(""), OrderStatus::Pending);
}

#[test]
fn duplicate_lines_can_overdraw_stock() {
    // Each line is checked against the whole stock of 5, so two lines of 3
    // are both accepted and together take 6.
    let req = request(vec![item("a", 3), item("a", 3)]);
    let lookups = vec![listed("A", 100, 2, 5), listed("A", 100, 2, 5)];
    let plan = plan_order("o", &req, &lookups).unwrap();
    let taken: i32 = stock_takes(&plan).iter().map(|m| m.quantity).sum();
    assert_eq!(5 - taken, -1);
    // With each product named once, the stock stays at or above zero.
    let req = request(vec![item("a", 5), item("b", 1)]);
    let lookups = vec![listed("A", 100, 2, 5), listed("B", 100, 2, 1)];
    let plan = plan_order("o", &req, &lookups).unwrap();
    for m in stock_takes(&plan) {
        let before = if m.product_id == "a" { 5 } else { 1 };
        assert!(before - m.quantity >= 0);
    }
}
