//! Products: the catalogue record, the checks on a new product, the merge
//! of a partial update into the stored product, and the admin guards.

use vstd::prelude::*;
use crate::auth::{Claims, check_role, claims_view, role_access, guard, guard_outcome, result_view};
use crate::money::{Amount, amount_text, decimal_string};
use crate::order::opt_string_view;
use crate::reply::{Reply, ReplyView, Status, BodyKind, reply_of, make_reply};
use crate::text::{trim, trimmed};
use vstd::string::StrSliceExecFns;

verus! {

/// A catalogue product.
#[derive(Clone, Debug)]
pub struct Product {
    pub id: String,
    pub name: String,
    pub description: Option<String>,
    pub price: Amount,
    pub stock: i32,
    pub category: Option<String>,
    pub status: Option<String>,
}

/// A product to add.
#[derive(Clone, Debug)]
pub struct NewProduct {
    pub name: String,
    pub description: Option<String>,
    pub price: Amount,
    pub stock: i32,
    pub category: Option<String>,
}

/// A request to list or unlist a product.
#[derive(Clone, Debug)]
pub struct UpdateStatus {
    pub status: String,
}

/// A partial product update: absent fields keep their stored value.
#[derive(Clone, Debug)]
pub struct UpdateProduct {
    pub name: Option<String>,
    pub description: Option<String>,
    pub price: Option<Amount>,
    pub stock: Option<i32>,
    pub category: Option<String>,
    pub status: Option<String>,
}

/// The columns written by a product update.
#[derive(Clone, Debug)]
pub struct ProductChanges {
    pub name: String,
    pub description: Option<String>,
    pub price: Amount,
    pub stock: i32,
    pub category: Option<String>,
    pub status: Option<String>,
}

pub struct ProductView {
    pub id: Seq<char>,
    pub name: Seq<char>,
    pub description: Option<Seq<char>>,
    pub price: Amount,
    pub stock: i32,
    pub category: Option<Seq<char>>,
    pub status: Option<Seq<char>>,
}

impl View for Product {
    type V = ProductView;

    open spec fn view(&self) -> ProductView {
        ProductView {
            id: self.id@,
            name: self.name@,
            description: opt_string_view(self.description),
            price: self.price,
            stock: self.stock,
            category: opt_string_view(self.category),
            status: opt_string_view(self.status),
        }
    }
}

pub struct UpdateView {
    pub name: Option<Seq<char>>,
    pub description: Option<Seq<char>>,
    pub price: Option<Amount>,
    pub stock: Option<i32>,
    pub category: Option<Seq<char>>,
    pub status: Option<Seq<char>>,
}

impl View for UpdateProduct {
    type V = UpdateView;

    open spec fn view(&self) -> UpdateView {
        UpdateView {
            name: opt_string_view(self.name),
            description: opt_string_view(self.description),
            price: self.price,
            stock: self.stock,
            category: opt_string_view(self.category),
            status: opt_string_view(self.status),
        }
    }
}

pub struct ChangesView {
    pub name: Seq<char>,
    pub description: Option<Seq<char>>,
    pub price: Amount,
    pub stock: i32,
    pub category: Option<Seq<char>>,
    pub status: Option<Seq<char>>,
}

impl View for ProductChanges {
    type V = ChangesView;

    open spec fn view(&self) -> ChangesView {
        ChangesView {
            name: self.name@,
            description: opt_string_view(self.description),
            price: self.price,
            stock: self.stock,
            category: opt_string_view(self.category),
            status: opt_string_view(self.status),
        }
    }
}

/// The first of two optional values that is present.
pub open spec fn first_present<T>(a: Option<T>, b: Option<T>) -> Option<T> {
    match a {
        Some(x) => Some(x),
        None => b,
    }
}

/// A partial update applied to a stored product: every field the update
/// holds replaces the stored one, every other keeps its stored value.
pub open spec fn merged(update: UpdateView, stored: ProductView) -> ChangesView {
    ChangesView {
        name: match update.name { Some(n) => n, None => stored.name },
        description: first_present(update.description, stored.description),
        price: match update.price { Some(p) => p, None => stored.price },
        stock: match update.stock { Some(q) => q, None => stored.stock },
        category: first_present(update.category, stored.category),
        status: first_present(update.status, stored.status),
    }
}

fn or_string(a: &Option<String>, b: &Option<String>) -> (r: Option<String>)
    ensures
        opt_string_view(r) == first_present(opt_string_view(*a), opt_string_view(*b)),
{
    match a {
        Some(x) => Some(x.clone()),
        None => match b {
            Some(y) => Some(y.clone()),
            None => None,
        },
    }
}

impl UpdateProduct {
    /// The columns to write when this update is applied to `stored`.
    pub fn merge(&self, stored: &Product) -> (r: ProductChanges)
        ensures
            r@ == merged(self@, stored@),
    {
        let name = match &self.name {
            Some(n) => n.clone(),
            None => stored.name.clone(),
        };
        let price = match self.price {
            Some(p) => p,
            None => stored.price,
        };
        let stock = match self.stock {
            Some(q) => q,
            None => stored.stock,
        };
        ProductChanges {
            name,
            description: or_string(&self.description, &stored.description),
            price,
            stock,
            category: or_string(&self.category, &stored.category),
            status: or_string(&self.status, &stored.status),
        }
    }
}

/// A rule a new product breaks.
#[derive(Clone, Copy, Debug, PartialEq, Eq, Structural)]
pub enum ProductFieldError {
    /// The name has no character.
    EmptyName,
    /// The stock is below zero.
    NegativeStock,
}

/// The rules a new product breaks, in field order: a name of at least one
/// character, a stock of at least zero.
pub open spec fn product_errors(name: Seq<char>, stock: i32) -> Seq<ProductFieldError> {
    let a: Seq<ProductFieldError> = if name.len() == 0 { seq![ProductFieldError::EmptyName] } else { seq![] };
    let b: Seq<ProductFieldError> = if stock < 0 { seq![ProductFieldError::NegativeStock] } else { seq![] };
    a + b
}

impl ProductFieldError {
    /// The field the rule is about.
    pub fn field(&self) -> (r: &'static str)
        ensures
            r@ == (match self { ProductFieldError::EmptyName => "name"@, ProductFieldError::NegativeStock => "stock"@ }),
    {
        match self {
            ProductFieldError::EmptyName => "name",
            ProductFieldError::NegativeStock => "stock",
        }
    }

    /// The kind of rule, as the validation report names it.
    pub fn code(&self) -> (r: &'static str)
        ensures
            r@ == (match self { ProductFieldError::EmptyName => "length"@, ProductFieldError::NegativeStock => "range"@ }),
    {
        match self {
            ProductFieldError::EmptyName => "length",
            ProductFieldError::NegativeStock => "range",
        }
    }

    /// The message shown for the broken rule.
    pub fn message(&self) -> (r: &'static str)
        ensures
            r@ == (match self {
                ProductFieldError::EmptyName => "Name cannot be empty"@,
                ProductFieldError::NegativeStock => "Stock must be >= 0"@,
            }),
    {
        match self {
            ProductFieldError::EmptyName => "Name cannot be empty",
            ProductFieldError::NegativeStock => "Stock must be >= 0",
        }
    }
}

impl NewProduct {
    /// Checks a new product: `Ok` when no rule is broken, else every
    /// broken rule in field order.
    pub fn validate(&self) -> (r: Result<(), Vec<ProductFieldError>>)
        ensures
            match r {
                Ok(()) => product_errors(self.name@, self.stock).len() == 0,
                Err(errors) => errors@.len() > 0 && errors@ == product_errors(self.name@, self.stock),
            },
    {
        let mut errors: Vec<ProductFieldError> = Vec::new();
        if self.name.as_str().unicode_len() == 0 {
            errors.push(ProductFieldError::EmptyName);
        }
        if self.stock < 0 {
            errors.push(ProductFieldError::NegativeStock);
        }
        assert(errors@ =~= product_errors(self.name@, self.stock));
        if errors.len() == 0 {
            Ok(())
        } else {
            Err(errors)
        }
    }

    /// The price text stored for the new product: the decimal's text,
    /// trimmed of surrounding whitespace.
    pub fn stored_price(&self) -> (r: String)
        requires
            self.price.wf(),
        ensures
            r@ == trimmed(decimal_string(self.price.mantissa as int, self.price.scale as nat)),
    {
        let text = amount_text(self.price);
        trim(text.as_str()).to_owned()
    }

    /// The name stored for the new product: trimmed of surrounding
    /// whitespace.
    pub fn stored_name(&self) -> (r: String)
        ensures
            r@ == trimmed(self.name@),
    {
        trim(self.name.as_str()).to_owned()
    }
}

/// Adding a product is for admins: 403 for other roles (whose message
/// speaks of placing orders), 401 without a session.
pub fn add_product_access(claims: Option<&Claims>) -> (r: Result<(), Reply>)
    ensures
        result_view(r) == guard_outcome(
            role_access(claims_view(claims), "admin"@),
            BodyKind::Text,
            "Only customers can place orders"@,
            "Unauthorized access"@,
        ),
{
    let access = check_role(claims, "admin");
    guard(access, BodyKind::Text, "Only customers can place orders", "Unauthorized access")
}

/// Changing a product or its status is for admins: 403 for other roles,
/// 401 without a session.
pub fn product_admin_access(claims: Option<&Claims>) -> (r: Result<(), Reply>)
    ensures
        result_view(r) == guard_outcome(
            role_access(claims_view(claims), "admin"@),
            BodyKind::Text,
            "Only admin can update details"@,
            "Unauthorized access"@,
        ),
{
    let access = check_role(claims, "admin");
    guard(access, BodyKind::Text, "Only admin can update details", "Unauthorized access")
}

/// A product looked up by id: the product, or 404 when there is none.
pub fn found_product(found: Option<Product>) -> (r: Result<Product, Reply>)
    ensures
        match found {
            Some(p) => r matches Ok(q) && q@ == p@,
            None => r matches Err(e) && e@ == reply_of(Status::NotFound, BodyKind::Text, "Product not found"@),
        },
{
    match found {
        Some(p) => Ok(p),
        None => Err(make_reply(Status::NotFound, BodyKind::Text, "Product not found")),
    }
}

/// The answer after a product update was stored.
pub fn product_updated_reply() -> (r: Reply)
    ensures
        r@ == reply_of(Status::Success, BodyKind::Text, "Product updated successfully"@),
{
    make_reply(Status::Success, BodyKind::Text, "Product updated successfully")
}

/// The answer after a product status was stored.
pub fn product_status_updated_reply() -> (r: Reply)
    ensures
        r@ == reply_of(Status::Success, BodyKind::Text, "Status updated successfully"@),
{
    make_reply(Status::Success, BodyKind::Text, "Status updated successfully")
}

/// A partial update writes every field it holds and keeps every field it
/// leaves out: for each field, the written value is the update's when
/// present, else the stored one.
pub proof fn merge_writes_present_fields_and_keeps_the_rest(update: UpdateView, stored: ProductView)
    ensures
        ({
            let c = merged(update, stored);
            &&& (update.name matches Some(n) ==> c.name == n)
            &&& (update.name is None ==> c.name == stored.name)
            &&& (update.description matches Some(d) ==> c.description == Some(d))
            &&& (update.description is None ==> c.description == stored.description)
            &&& (update.price matches Some(p) ==> c.price == p)
            &&& (update.price is None ==> c.price == stored.price)
            &&& (update.stock matches Some(q) ==> c.stock == q)
            &&& (update.stock is None ==> c.stock == stored.stock)
            &&& (update.category matches Some(x) ==> c.category == Some(x))
            &&& (update.category is None ==> c.category == stored.category)
            &&& (update.status matches Some(x) ==> c.status == Some(x))
            &&& (update.status is None ==> c.status == stored.status)
        }),
{
}

/// A new product is refused exactly for an empty name or a negative
/// stock: the name rule is reported exactly when the name has no
/// character, the stock rule exactly when the stock is below zero, and
/// nothing else is ever reported.
pub proof fn new_product_rules(name: Seq<char>, stock: i32)
    ensures
        product_errors(name, stock).len() == 0 <==> (name.len() > 0 && stock >= 0),
        product_errors(name, stock).contains(ProductFieldError::EmptyName) <==> name.len() == 0,
        product_errors(name, stock).contains(ProductFieldError::NegativeStock) <==> stock < 0,
        product_errors(name, stock).len() <= 2,
{
    let e = product_errors(name, stock);
    if name.len() == 0 {
        assert(e[0] == ProductFieldError::EmptyName);
    }
    if stock < 0 {
        assert(e[e.len() - 1] == ProductFieldError::NegativeStock);
    }
    if name.len() > 0 {
        assert forall|i: int| 0 <= i < e.len() implies e[i] != ProductFieldError::EmptyName by {}
    }
    if stock >= 0 {
        assert forall|i: int| 0 <= i < e.len() implies e[i] != ProductFieldError::NegativeStock by {}
    }
}

} // verus!
