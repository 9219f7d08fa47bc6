use shopfront::alert::{AlertReadError, alert_subject, out_of_stock_notice, read_stock_alert, stock_alert_email, StockAlertFields};
use shopfront::auth::Claims;
use shopfront::money::{amount_text, Amount};
use shopfront::product::{
    add_product_access, found_product, product_admin_access, product_status_updated_reply,
    product_updated_reply, NewProduct, Product, ProductFieldError, UpdateProduct,
};
use shopfront::reply::{BodyKind, Status};
use shopfront::report::{report_access, report_failed_reply, report_query, valid_report_type, ReportPath};

fn stored() -> Product {
    Product {
        id: "p1".to_string(),
        name: "hp 15s".to_string(),
        description: Some("laptop".to_string()),
        price: Amount { mantissa: 3300, scale: 2 },
        stock: 10,
        category: Some("electronics".to_string()),
        status: Some("listed".to_string()),
    }
}

#[test]
fn update_keeps_absent_fields() {
    let upd = UpdateProduct { name: None, description: None, price: None, stock: None, category: None, status: None };
    let c = upd.merge(&stored());
    assert_eq!(c.name, "hp 15s");
    assert_eq!(c.description.as_deref(), Some("laptop"));
    assert_eq!(c.price, Amount { mantissa: 3300, scale: 2 });
    assert_eq!(c.stock, 10);
    assert_eq!(c.category.as_deref(), Some("electronics"));
    assert_eq!(c.status.as_deref(), Some("listed"));
}

#[test]
fn readme_update_sets_stock() {
    let mut p = stored();
    p.stock = 0;
    let upd = UpdateProduct {
        name: Some("Mankcdgede's Dryer".to_string()),
        description: None,
        price: Some(Amount { mantissa: 33, scale: 0 }),
        stock: Some(10),
        category: Some("electronics".to_string()),
        status: None,
    };
    let c = upd.merge(&p);
    assert_eq!(c.name, "Mankcdgede's Dryer");
    assert_eq!(c.stock, 10);
    assert_eq!(c.price, Amount { mantissa: 33, scale: 0 });
    assert_eq!(c.status.as_deref(), Some("listed"));
}

#[test]
fn decimal_text_matches_rust_decimal() {
    let t = |m: i128, s: u32| amount_text(Amount { mantissa: m, scale: s });
    assert_eq!(t(6600, 2), "66.00");
    assert_eq!(t(5, 2), "0.05");
    assert_eq!(t(-15, 1), "-1.5");
    assert_eq!(t(0, 0), "0");
    assert_eq!(t(0, 2), "0.00");
    assert_eq!(t(33, 0), "33");
    assert_eq!(t(-7, 3), "-0.007");
    let p = NewProduct { name: "x".to_string(), description: None, price: Amount { mantissa: 3300, scale: 2 }, stock: 0, category: None };
    assert_eq!(p.stored_price(), "33.00");
}

#[test]
fn update_replaces_present_fields() {
    let upd = UpdateProduct {
        name: Some("Mankcdgede's Dryer".to_string()),
        description: None,
        price: Some(Amount { mantissa: 33, scale: 0 }),
        stock: None,
        category: Some("home".to_string()),
        status: Some("unlisted".to_string()),
    };
    let c = upd.merge(&stored());
    assert_eq!(c.name, "Mankcdgede's Dryer");
    assert_eq!(c.description.as_deref(), Some("laptop"));
    assert_eq!(c.price, Amount { mantissa: 33, scale: 0 });
    assert_eq!(c.category.as_deref(), Some("home"));
    assert_eq!(c.status.as_deref(), Some("unlisted"));
}

fn new_product(name: &str, stock: i32) -> NewProduct {
    NewProduct { name: name.to_string(), description: None, price: Amount { mantissa: 33, scale: 0 }, stock, category: None }
}

#[test]
fn new_product_checks() {
    assert!(new_product("hp 15s", 0).validate().is_ok());
    assert_eq!(new_product("", 0).validate().unwrap_err(), vec![ProductFieldError::EmptyName]);
    assert_eq!(new_product("x", -1).validate().unwrap_err(), vec![ProductFieldError::NegativeStock]);
    assert_eq!(
        new_product("", -5).validate().unwrap_err(),
        vec![ProductFieldError::EmptyName, ProductFieldError::NegativeStock]
    );
    // A name of spaces has characters and passes; it is stored trimmed.
    let p = new_product("  lamp  ", 1);
    assert!(p.validate().is_ok());
    assert_eq!(p.stored_name(), "lamp");
    let e = ProductFieldError::EmptyName;
    assert_eq!((e.field(), e.code(), e.message()), ("name", "length", "Name cannot be empty"));
    let e = ProductFieldError::NegativeStock;
    assert_eq!((e.field(), e.code(), e.message()), ("stock", "range", "Stock must be >= 0"));
}

fn claims(role: &str) -> Claims {
    Claims { sub: "s".to_string(), email: "e".to_string(), role: role.to_string(), exp: 0 }
}

#[test]
fn product_guards() {
    assert!(add_product_access(Some(&claims("admin"))).is_ok());
    let e = add_product_access(Some(&claims("customer"))).unwrap_err();
    assert_eq!((e.status, e.message.as_str()), (Status::Forbidden, "Only customers can place orders"));
    let e = product_admin_access(Some(&claims("user"))).unwrap_err();
    assert_eq!((e.status, e.message.as_str()), (Status::Forbidden, "Only admin can update details"));
    let e = product_admin_access(None).unwrap_err();
    assert_eq!((e.status, e.message.as_str()), (Status::Unauthorized, "Unauthorized access"));
    let e = found_product(None).unwrap_err();
    assert_eq!((e.status, e.kind, e.message.as_str()), (Status::NotFound, BodyKind::Text, "Product not found"));
    assert_eq!(found_product(Some(stored())).unwrap().id, "p1");
    assert_eq!(product_updated_reply().message, "Product updated successfully");
    assert_eq!(product_status_updated_reply().message, "Status updated successfully");
}

#[test]
fn report_kinds_and_query() {
    for k in ["daily", "weekly", "monthly", "yearly"] {
        assert!(valid_report_type(k));
        let q = report_query(&ReportPath { report_type: k.to_string() }).unwrap();
        assert!(q.contains(&format!("WHERE report_type = '{}' \n", k)));
        assert!(q.starts_with("SELECT \n    toString(period) AS period,"));
        assert!(q.ends_with("ORDER BY period DESC "));
    }
    let e = report_query(&ReportPath { report_type: "daily' OR 1=1 --".to_string() }).unwrap_err();
    assert_eq!((e.status, e.message.as_str()), (Status::BadRequest, "Invalid report type"));
    assert!(!valid_report_type("Daily"));
    assert!(report_access(Some(&claims("admin"))).is_ok());
    assert_eq!(report_access(Some(&claims("user"))).unwrap_err().message, "Only admin can view reports");
    assert_eq!(report_failed_reply().message, "Failed to fetch report");
}

#[test]
fn alert_email_text() {
    let f = StockAlertFields {
        message: Some(out_of_stock_notice().to_string()),
        product_id: Some("p1".to_string()),
        product_name: Some("Lamp".to_string()),
        remaining_stock: None,
    };
    assert_eq!(
        stock_alert_email(&f),
        " Product is out of stock. Please restock. , product id : p1, product name: Lamp, remaining_stock :Unknown "
    );
    assert_eq!(alert_subject(), " Product Out of Stock Alert");
}

#[test]
fn alert_event_read_back() {
    let payload = r#"{"timestamp":"t","product_id":"p1","product_name":"Lamp","remaining_stock":2,"message":"Product is out of stock. Please restock."}"#;
    let f = read_stock_alert(payload).unwrap();
    assert_eq!(f.product_id.as_deref(), Some("p1"));
    assert_eq!(f.product_name.as_deref(), Some("Lamp"));
    // The stock is a JSON number, so it is not read as text.
    assert_eq!(f.remaining_stock, None);
    assert_eq!(
        stock_alert_email(&f),
        " Product is out of stock. Please restock. , product id : p1, product name: Lamp, remaining_stock :Unknown "
    );
    assert_eq!(read_stock_alert("not json").unwrap_err(), AlertReadError::MalformedJson);
    let sparse = read_stock_alert(r#"{"product_id": 7, "message": "m"}"#).unwrap();
    assert_eq!(sparse.product_id, None);
    assert_eq!(sparse.product_name, None);
    assert_eq!(sparse.message.as_deref(), Some("m"));
    assert_eq!(read_stock_alert("[1, 2]").unwrap(), StockAlertFields {
        message: None, product_id: None, product_name: None, remaining_stock: None,
    });
}
