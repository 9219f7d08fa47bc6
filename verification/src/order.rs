//! Orders: placing an order (checks and pricing), the status rules for
//! admins and for customers who cancel, and the order status names.

use vstd::prelude::*;
use crate::auth::{Claims, Access, check_role, claims_view, role_access, guard, guard_outcome, result_view};
use crate::money::{Amount, checked_mul, checked_add, product_of, sum_of, sum_is_exact, fits_mantissa, max_scale, rescaled, pow10, lemma_pow10_add, lemma_pow10_positive, MAX_SCALE};
use crate::reply::{Reply, ReplyView, Status, BodyKind, reply_of, make_reply, reply_with};
use crate::text::{str_equal, opt_str_equal, int_to_text, int_text, join3, to_lowercase, lowercase};

verus! {

/// One line of an order request: which product and how many.
#[derive(Clone, Debug)]
pub struct ProductOrderRequest {
    pub product_id: String,
    pub quantity: i32,
}

/// An order request: the customer, where to ship, and the lines.
#[derive(Clone, Debug)]
pub struct OrderRequest {
    pub user_id: String,
    pub shipping_address: String,
    pub products: Vec<ProductOrderRequest>,
}

/// What the catalogue holds about a product at the time of the order.
#[derive(Clone, Debug)]
pub struct ProductSnapshot {
    pub name: String,
    pub price: Amount,
    pub stock: i32,
    pub status: Option<String>,
}

/// A priced line of a placed order.
#[derive(Clone, Debug, PartialEq, Eq)]
pub struct OrderProduct {
    pub order_id: String,
    pub product_id: String,
    pub product_name: String,
    pub quantity: i32,
    pub total_price: Amount,
}

/// A stored order item row, as written when the order is placed.
#[derive(Clone, Debug, PartialEq, Eq)]
pub struct OrderItemRecord {
    pub id: String,
    pub order_id: String,
    pub product_id: String,
    pub product_name: String,
    pub quantity: i32,
}

/// An accepted order: what is stored and answered.
#[derive(Clone, Debug)]
pub struct OrderPlan {
    pub order_id: String,
    pub user_id: String,
    pub shipping_address: String,
    pub total_amount: Amount,
    pub products: Vec<OrderProduct>,
}

/// An admin's request to move an order to another status.
#[derive(Clone, Debug)]
pub struct StatusChangeRequest {
    pub new_status: String,
}

pub struct ItemView {
    pub product_id: Seq<char>,
    pub quantity: i32,
}

pub struct OrderRequestView {
    pub user_id: Seq<char>,
    pub shipping_address: Seq<char>,
    pub products: Seq<ItemView>,
}

pub struct SnapshotView {
    pub name: Seq<char>,
    pub price: Amount,
    pub stock: i32,
    pub status: Option<Seq<char>>,
}

pub struct LineView {
    pub order_id: Seq<char>,
    pub product_id: Seq<char>,
    pub product_name: Seq<char>,
    pub quantity: i32,
    pub total_price: (int, int),
}

pub struct OrderPlanView {
    pub order_id: Seq<char>,
    pub user_id: Seq<char>,
    pub shipping_address: Seq<char>,
    pub total_amount: (int, int),
    pub products: Seq<LineView>,
}

impl View for ProductOrderRequest {
    type V = ItemView;

    open spec fn view(&self) -> ItemView {
        ItemView { product_id: self.product_id@, quantity: self.quantity }
    }
}

pub open spec fn item_views(s: Seq<ProductOrderRequest>) -> Seq<ItemView> {
    s.map_values(|x: ProductOrderRequest| x@)
}

impl View for OrderRequest {
    type V = OrderRequestView;

    open spec fn view(&self) -> OrderRequestView {
        OrderRequestView {
            user_id: self.user_id@,
            shipping_address: self.shipping_address@,
            products: item_views(self.products@),
        }
    }
}

pub open spec fn opt_string_view(s: Option<String>) -> Option<Seq<char>> {
    match s {
        Some(x) => Some(x@),
        None => None,
    }
}

impl View for ProductSnapshot {
    type V = SnapshotView;

    open spec fn view(&self) -> SnapshotView {
        SnapshotView {
            name: self.name@,
            price: self.price,
            stock: self.stock,
            status: opt_string_view(self.status),
        }
    }
}

pub open spec fn snapshot_views(s: Seq<Option<ProductSnapshot>>) -> Seq<Option<SnapshotView>> {
    s.map_values(|x: Option<ProductSnapshot>| match x { Some(p) => Some(p@), None => None })
}

impl View for OrderProduct {
    type V = LineView;

    open spec fn view(&self) -> LineView {
        LineView {
            order_id: self.order_id@,
            product_id: self.product_id@,
            product_name: self.product_name@,
            quantity: self.quantity,
            total_price: self.total_price.pair(),
        }
    }
}

pub open spec fn line_views(s: Seq<OrderProduct>) -> Seq<LineView> {
    s.map_values(|x: OrderProduct| x@)
}

impl View for OrderPlan {
    type V = OrderPlanView;

    open spec fn view(&self) -> OrderPlanView {
        OrderPlanView {
            order_id: self.order_id@,
            user_id: self.user_id@,
            shipping_address: self.shipping_address@,
            total_amount: self.total_amount.pair(),
            products: line_views(self.products@),
        }
    }
}

/// Message for an order line whose product does not exist.
pub open spec fn not_found_message(product_id: Seq<char>) -> Seq<char> {
    "Product with ID "@ + product_id + " not found"@
}

/// Message for an order line whose product is not listed.
pub open spec fn unavailable_message(name: Seq<char>) -> Seq<char> {
    "Product '"@ + name + "' is unavailable"@
}

/// Message for an order line asking for more than the stock.
pub open spec fn short_stock_message(stock: i32, name: Seq<char>) -> Seq<char> {
    "Only "@ + int_text(stock as int) + " units available for '"@ + name + "'"@
}

/// Why a line cannot be ordered, if it cannot: the product is missing,
/// not listed, or has less stock than asked for.
pub open spec fn line_rejection(item: ItemView, lookup: Option<SnapshotView>) -> Option<ReplyView> {
    match lookup {
        None => Some(reply_of(Status::BadRequest, BodyKind::JsonError, not_found_message(item.product_id))),
        Some(p) => if p.status != Some("listed"@) {
            Some(reply_of(Status::BadRequest, BodyKind::JsonError, unavailable_message(p.name)))
        } else if item.quantity > p.stock {
            Some(reply_of(Status::BadRequest, BodyKind::JsonError, short_stock_message(p.stock, p.name)))
        } else {
            None
        },
    }
}

/// State of the pricing loop after some lines.
pub enum OrderEval {
    Running { total: (int, int), lines: Seq<LineView> },
    Rejected { reply: ReplyView },
    Overflow,
}

/// The decimal zero with two places that the running total starts from.
pub open spec fn zero_total() -> (int, int) {
    (0, 2)
}

/// The pricing loop over the first `n` lines: each line is checked, priced
/// as price times quantity, and added to the total; the first refused line
/// stops the loop, and so does an arithmetic overflow.
pub open spec fn eval_prefix(
    order_id: Seq<char>,
    items: Seq<ItemView>,
    lookups: Seq<Option<SnapshotView>>,
    n: nat,
) -> OrderEval
    decreases n,
{
    if n == 0 {
        OrderEval::Running { total: zero_total(), lines: Seq::empty() }
    } else {
        match eval_prefix(order_id, items, lookups, (n - 1) as nat) {
            OrderEval::Running { total, lines } => {
                let item = items[n - 1];
                match line_rejection(item, lookups[n - 1]) {
                    Some(reply) => OrderEval::Rejected { reply },
                    None => {
                        let p = lookups[n - 1]->0;
                        match product_of(p.price.mantissa as int, p.price.scale as int, item.quantity as int, 0) {
                            None => OrderEval::Overflow,
                            Some(t) => match sum_of(total.0, total.1, t.0, t.1) {
                                None => OrderEval::Overflow,
                                Some(sum) => OrderEval::Running {
                                    total: sum,
                                    lines: lines.push(LineView {
                                        order_id,
                                        product_id: item.product_id,
                                        product_name: p.name,
                                        quantity: item.quantity,
                                        total_price: t,
                                    }),
                                },
                            },
                        }
                    },
                }
            },
            other => other,
        }
    }
}

/// What placing an order comes to.
pub enum OrderOutcome {
    Accepted(OrderPlanView),
    Rejected(ReplyView),
    Overflow,
}

/// The outcome of placing `request` under the id `order_id`, given what
/// the catalogue holds for each line (`None` for a product not found).
pub open spec fn order_outcome(
    order_id: Seq<char>,
    request: OrderRequestView,
    lookups: Seq<Option<SnapshotView>>,
) -> OrderOutcome {
    match eval_prefix(order_id, request.products, lookups, request.products.len()) {
        OrderEval::Running { total, lines } => OrderOutcome::Accepted(OrderPlanView {
            order_id,
            user_id: request.user_id,
            shipping_address: request.shipping_address,
            total_amount: total,
            products: lines,
        }),
        OrderEval::Rejected { reply } => OrderOutcome::Rejected(reply),
        OrderEval::Overflow => OrderOutcome::Overflow,
    }
}

/// Once the loop has stopped, later lines change nothing.
pub proof fn lemma_eval_stops(
    order_id: Seq<char>,
    items: Seq<ItemView>,
    lookups: Seq<Option<SnapshotView>>,
    k: nat,
    n: nat,
)
    requires
        k <= n,
        !(eval_prefix(order_id, items, lookups, k) is Running),
    ensures
        eval_prefix(order_id, items, lookups, n) == eval_prefix(order_id, items, lookups, k),
    decreases n,
{
    if n > k {
        lemma_eval_stops(order_id, items, lookups, k, (n - 1) as nat);
    }
}

/// Pricing of an order in executable form.
pub enum OrderEvaluation {
    Accepted(OrderPlan),
    Rejected(Reply),
    Overflow,
}

pub open spec fn evaluation_view(e: OrderEvaluation) -> OrderOutcome {
    match e {
        OrderEvaluation::Accepted(p) => OrderOutcome::Accepted(p@),
        OrderEvaluation::Rejected(r) => OrderOutcome::Rejected(r@),
        OrderEvaluation::Overflow => OrderOutcome::Overflow,
    }
}

fn line_check(item: &ProductOrderRequest, lookup: &Option<ProductSnapshot>) -> (r: Option<Reply>)
    ensures
        (match r { Some(x) => Some(x@), None => None })
            == line_rejection(item@, match lookup { Some(p) => Some(p@), None => None }),
{
    match lookup {
        None => {
            let msg = join3("Product with ID ", item.product_id.as_str(), " not found");
            Some(reply_with(Status::BadRequest, BodyKind::JsonError, msg))
        },
        Some(p) => {
            if !opt_str_equal(&p.status, "listed") {
                let msg = join3("Product '", p.name.as_str(), "' is unavailable");
                Some(reply_with(Status::BadRequest, BodyKind::JsonError, msg))
            } else if item.quantity > p.stock {
                let stock_text = int_to_text(p.stock);
                let head = join3("Only ", stock_text.as_str(), " units available for '");
                let msg = join3(head.as_str(), p.name.as_str(), "'");
                assert(msg@ =~= short_stock_message(p.stock, p.name@));
                Some(reply_with(Status::BadRequest, BodyKind::JsonError, msg))
            } else {
                None
            }
        },
    }
}

/// Checks and prices every line of an order, in order: a line whose
/// product is missing, unlisted or short of stock stops with the refusal;
/// otherwise its total is price times quantity, added to the order total
/// that starts at 0.00. Where the decimal arithmetic overflows the outcome
/// says so.
pub fn evaluate_order(
    order_id: &str,
    request: &OrderRequest,
    lookups: &Vec<Option<ProductSnapshot>>,
) -> (r: OrderEvaluation)
    requires
        lookups@.len() == request.products@.len(),
        forall|i: int| 0 <= i < lookups@.len() ==> (#[trigger] lookups@[i] matches Some(p) ==> p.price.wf()),
    ensures
        evaluation_view(r) == order_outcome(order_id@, request@, snapshot_views(lookups@)),
{
    let ghost items = request@.products;
    let ghost looks = snapshot_views(lookups@);
    let n = request.products.len();
    let mut total = Amount::new(0, 2);
    let mut lines: Vec<OrderProduct> = Vec::new();
    let mut i: usize = 0;
    assert(line_views(lines@) =~= Seq::<LineView>::empty());
    while i < n
        invariant
            n == request.products@.len(),
            n == lookups@.len(),
            items == request@.products,
            looks == snapshot_views(lookups@),
            forall|j: int| 0 <= j < lookups@.len() ==> (#[trigger] lookups@[j] matches Some(p) ==> p.price.wf()),
            i <= n,
            total.wf(),
            eval_prefix(order_id@, items, looks, i as nat)
                == (OrderEval::Running { total: total.pair(), lines: line_views(lines@) }),
        decreases n - i,
    {
        let item = &request.products[i];
        let lookup = &lookups[i];
        assert(items[i as int] == item@);
        assert(looks[i as int] == (match lookup { Some(p) => Some(p@), None => None }));
        match line_check(item, lookup) {
            Some(reply) => {
                proof {
                    lemma_eval_stops(order_id@, items, looks, (i + 1) as nat, n as nat);
                }
                return OrderEvaluation::Rejected(reply);
            },
            None => {},
        }
        let p = lookup.as_ref().unwrap();
        assert(p.price.wf());
        let qty = Amount::from_i32(item.quantity);
        let line_total = match checked_mul(p.price, qty) {
            Some(t) => t,
            None => {
                proof {
                    lemma_eval_stops(order_id@, items, looks, (i + 1) as nat, n as nat);
                }
                return OrderEvaluation::Overflow;
            },
        };
        match checked_add(total, line_total) {
            Some(s) => {
                total = s;
            },
            None => {
                proof {
                    lemma_eval_stops(order_id@, items, looks, (i + 1) as nat, n as nat);
                }
                return OrderEvaluation::Overflow;
            },
        }
        let line = OrderProduct {
            order_id: order_id.to_owned(),
            product_id: item.product_id.clone(),
            product_name: p.name.clone(),
            quantity: item.quantity,
            total_price: line_total,
        };
        let ghost old_lines = lines@;
        lines.push(line);
        assert(line_views(lines@) =~= line_views(old_lines).push(line@));
        i = i + 1;
    }
    let plan = OrderPlan {
        order_id: order_id.to_owned(),
        user_id: request.user_id.clone(),
        shipping_address: request.shipping_address.clone(),
        total_amount: total,
        products: lines,
    };
    OrderEvaluation::Accepted(plan)
}

/// Whether the decimal arithmetic of an order stays in range.
pub open spec fn order_fits(
    order_id: Seq<char>,
    request: OrderRequestView,
    lookups: Seq<Option<SnapshotView>>,
) -> bool {
    !(order_outcome(order_id, request, lookups) is Overflow)
}

/// The answer for an order whose arithmetic stays in range.
pub open spec fn placed_result(
    order_id: Seq<char>,
    request: OrderRequestView,
    lookups: Seq<Option<SnapshotView>>,
    r: Result<OrderPlan, Reply>,
) -> bool {
    match order_outcome(order_id, request, lookups) {
        OrderOutcome::Accepted(plan) => r matches Ok(x) && x@ == plan,
        OrderOutcome::Rejected(reply) => r matches Err(e) && e@ == reply,
        OrderOutcome::Overflow => false,
    }
}

/// Prices an order whose decimal arithmetic stays in range: either the
/// accepted order with its priced lines and total, or the refusal of the
/// first line that cannot be ordered.
pub fn plan_order(
    order_id: &str,
    request: &OrderRequest,
    lookups: &Vec<Option<ProductSnapshot>>,
) -> (r: Result<OrderPlan, Reply>)
    requires
        lookups@.len() == request.products@.len(),
        forall|i: int| 0 <= i < lookups@.len() ==> (#[trigger] lookups@[i] matches Some(p) ==> p.price.wf()),
        order_fits(order_id@, request@, snapshot_views(lookups@)),
    ensures
        placed_result(order_id@, request@, snapshot_views(lookups@), r),
{
    match evaluate_order(order_id, request, lookups) {
        OrderEvaluation::Accepted(plan) => Ok(plan),
        OrderEvaluation::Rejected(reply) => Err(reply),
        OrderEvaluation::Overflow => {
            assert(false);
            Err(make_reply(Status::InternalServerError, BodyKind::JsonError, ""))
        },
    }
}

/// Prices an order, first testing that its decimal arithmetic stays in
/// range: `None` where it would overflow, else what `plan_order` answers.
pub fn try_plan_order(
    order_id: &str,
    request: &OrderRequest,
    lookups: &Vec<Option<ProductSnapshot>>,
) -> (r: Option<Result<OrderPlan, Reply>>)
    requires
        lookups@.len() == request.products@.len(),
        forall|i: int| 0 <= i < lookups@.len() ==> (#[trigger] lookups@[i] matches Some(p) ==> p.price.wf()),
    ensures
        r is None <==> !order_fits(order_id@, request@, snapshot_views(lookups@)),
        r matches Some(x) ==> placed_result(order_id@, request@, snapshot_views(lookups@), x),
{
    match evaluate_order(order_id, request, lookups) {
        OrderEvaluation::Overflow => None,
        _ => Some(plan_order(order_id, request, lookups)),
    }
}

/// Only customers place orders: 403 for other roles, 401 without a session.
pub fn place_order_access(claims: Option<&Claims>) -> (r: Result<(), Reply>)
    ensures
        result_view(r) == guard_outcome(
            role_access(claims_view(claims), "customer"@),
            BodyKind::Text,
            "Only customers can place orders"@,
            "Unauthorized access"@,
        ),
{
    let access = check_role(claims, "customer");
    guard(access, BodyKind::Text, "Only customers can place orders", "Unauthorized access")
}

pub struct ItemRecordView {
    pub id: Seq<char>,
    pub order_id: Seq<char>,
    pub product_id: Seq<char>,
    pub product_name: Seq<char>,
    pub quantity: i32,
}

impl View for OrderItemRecord {
    type V = ItemRecordView;

    open spec fn view(&self) -> ItemRecordView {
        ItemRecordView {
            id: self.id@,
            order_id: self.order_id@,
            product_id: self.product_id@,
            product_name: self.product_name@,
            quantity: self.quantity,
        }
    }
}

/// The stored row of an order line under the row id `id`.
pub open spec fn record_of(line: LineView, id: Seq<char>) -> ItemRecordView {
    ItemRecordView {
        id,
        order_id: line.order_id,
        product_id: line.product_id,
        product_name: line.product_name,
        quantity: line.quantity,
    }
}

/// The item rows to store for an accepted order, one per line, each under
/// its own row id.
pub fn order_item_records(plan: &OrderPlan, item_ids: &Vec<String>) -> (r: Vec<OrderItemRecord>)
    requires
        item_ids@.len() == plan.products@.len(),
    ensures
        r@.len() == plan.products@.len(),
        forall|i: int| 0 <= i < r@.len() ==> #[trigger] r@[i]@ == record_of(plan@.products[i], item_ids@[i]@),
{
    let n = plan.products.len();
    let mut out: Vec<OrderItemRecord> = Vec::new();
    let mut i: usize = 0;
    while i < n
        invariant
            n == plan.products@.len(),
            n == item_ids@.len(),
            i <= n,
            out@.len() == i,
            forall|j: int| 0 <= j < i ==> #[trigger] out@[j]@ == record_of(plan@.products[j], item_ids@[j]@),
        decreases n - i,
    {
        let line = &plan.products[i];
        assert(plan@.products[i as int] == line@);
        out.push(OrderItemRecord {
            id: item_ids[i].clone(),
            order_id: line.order_id.clone(),
            product_id: line.product_id.clone(),
            product_name: line.product_name.clone(),
            quantity: line.quantity,
        });
        i = i + 1;
    }
    out
}

/// A stock movement: `quantity` units of a product leave or come back.
#[derive(Clone, Debug, PartialEq, Eq)]
pub struct StockMove {
    pub product_id: String,
    pub quantity: i32,
}

pub struct MoveView {
    pub product_id: Seq<char>,
    pub quantity: i32,
}

impl View for StockMove {
    type V = MoveView;

    open spec fn view(&self) -> MoveView {
        MoveView { product_id: self.product_id@, quantity: self.quantity }
    }
}

pub open spec fn move_views(s: Seq<StockMove>) -> Seq<MoveView> {
    s.map_values(|m: StockMove| m@)
}

/// The stock taken by an accepted order: each line's quantity of its
/// product, in line order.
pub open spec fn takes_of(lines: Seq<LineView>) -> Seq<MoveView> {
    lines.map_values(|l: LineView| MoveView { product_id: l.product_id, quantity: l.quantity })
}

/// The stock movements that placing an accepted order makes.
pub fn stock_takes(plan: &OrderPlan) -> (r: Vec<StockMove>)
    ensures
        move_views(r@) == takes_of(plan@.products),
{
    let n = plan.products.len();
    let mut out: Vec<StockMove> = Vec::new();
    let mut i: usize = 0;
    while i < n
        invariant
            n == plan.products@.len(),
            i <= n,
            move_views(out@) =~= takes_of(plan@.products.take(i as int)),
        decreases n - i,
    {
        let line = &plan.products[i];
        assert(plan@.products[i as int] == line@);
        let ghost before = out@;
        out.push(StockMove { product_id: line.product_id.clone(), quantity: line.quantity });
        assert(plan@.products.take(i + 1) =~= plan@.products.take(i as int).push(line@));
        assert(move_views(out@) =~= move_views(before).push(out@.last()@));
        i = i + 1;
    }
    assert(plan@.products.take(n as int) =~= plan@.products);
    out
}

/// An order item row as read back when an order is cancelled; the
/// columns may be empty.
#[derive(Clone, Debug)]
pub struct StoredItem {
    pub product_id: Option<String>,
    pub quantity: Option<i32>,
}

pub struct StoredItemView {
    pub product_id: Option<Seq<char>>,
    pub quantity: Option<i32>,
}

impl View for StoredItem {
    type V = StoredItemView;

    open spec fn view(&self) -> StoredItemView {
        StoredItemView { product_id: opt_string_view(self.product_id), quantity: self.quantity }
    }
}

pub open spec fn stored_views(s: Seq<StoredItem>) -> Seq<StoredItemView> {
    s.map_values(|x: StoredItem| x@)
}

/// The stock that cancelling gives back: the quantity of every row that
/// names both a product and a quantity, in row order.
pub open spec fn returns_of(rows: Seq<StoredItemView>) -> Seq<MoveView>
    decreases rows.len(),
{
    if rows.len() == 0 {
        Seq::empty()
    } else {
        let before = returns_of(rows.drop_last());
        let row = rows.last();
        match (row.product_id, row.quantity) {
            (Some(p), Some(q)) => before.push(MoveView { product_id: p, quantity: q }),
            _ => before,
        }
    }
}

/// The stock movements that cancelling an order makes.
pub fn stock_returns(rows: &Vec<StoredItem>) -> (r: Vec<StockMove>)
    ensures
        move_views(r@) == returns_of(stored_views(rows@)),
{
    let n = rows.len();
    let mut out: Vec<StockMove> = Vec::new();
    let mut i: usize = 0;
    assert(stored_views(rows@).take(0) =~= Seq::<StoredItemView>::empty());
    while i < n
        invariant
            n == rows@.len(),
            i <= n,
            move_views(out@) =~= returns_of(stored_views(rows@).take(i as int)),
        decreases n - i,
    {
        let row = &rows[i];
        let ghost before = out@;
        assert(stored_views(rows@).take(i + 1).drop_last() =~= stored_views(rows@).take(i as int));
        assert(stored_views(rows@).take(i + 1).last() == row@);
        match (&row.product_id, row.quantity) {
            (Some(p), Some(q)) => {
                out.push(StockMove { product_id: p.clone(), quantity: q });
                assert(move_views(out@) =~= move_views(before).push(out@.last()@));
            },
            _ => {},
        }
        i = i + 1;
    }
    assert(stored_views(rows@).take(n as int) =~= stored_views(rows@));
    out
}

/// Stock at or below this level raises an out-of-stock alert.
pub const LOW_STOCK_LEVEL: i32 = 3i32;

/// Whether the stock left after an order calls for a restock alert.
pub fn needs_restock_alert(remaining: i32) -> (r: bool)
    ensures
        r == (remaining <= LOW_STOCK_LEVEL),
{
    remaining <= LOW_STOCK_LEVEL
}

/// Net quantity of a product that a sequence of movements names.
pub open spec fn net_quantity(moves: Seq<MoveView>, product_id: Seq<char>) -> int
    decreases moves.len(),
{
    if moves.len() == 0 {
        0
    } else {
        net_quantity(moves.drop_last(), product_id) + if moves.last().product_id == product_id {
            moves.last().quantity as int
        } else {
            0
        }
    }
}

/// Stock levels after the movements are taken out.
pub open spec fn after_taking(stock: Map<Seq<char>, int>, moves: Seq<MoveView>) -> Map<Seq<char>, int> {
    Map::new(|k: Seq<char>| stock.dom().contains(k), |k: Seq<char>| stock[k] - net_quantity(moves, k))
}

/// Stock levels after the movements are given back.
pub open spec fn after_returning(stock: Map<Seq<char>, int>, moves: Seq<MoveView>) -> Map<Seq<char>, int> {
    Map::new(|k: Seq<char>| stock.dom().contains(k), |k: Seq<char>| stock[k] + net_quantity(moves, k))
}

/// The row read back for a stored order item.
pub open spec fn stored_row(rec: ItemRecordView) -> StoredItemView {
    StoredItemView { product_id: Some(rec.product_id), quantity: Some(rec.quantity) }
}

proof fn lemma_returns_of_stored(lines: Seq<LineView>, ids: Seq<Seq<char>>)
    requires
        ids.len() == lines.len(),
    ensures
        returns_of(Seq::new(lines.len(), |i: int| stored_row(record_of(lines[i], ids[i]))))
            == takes_of(lines),
    decreases lines.len(),
{
    let rows = Seq::new(lines.len(), |i: int| stored_row(record_of(lines[i], ids[i])));
    if lines.len() == 0 {
        assert(takes_of(lines) =~= Seq::<MoveView>::empty());
    } else {
        let l2 = lines.drop_last();
        let i2 = ids.drop_last();
        lemma_returns_of_stored(l2, i2);
        let rows2 = Seq::new(l2.len(), |i: int| stored_row(record_of(l2[i], i2[i])));
        assert(rows.drop_last() =~= rows2);
        assert(takes_of(lines) =~= takes_of(l2).push(
            MoveView { product_id: lines.last().product_id, quantity: lines.last().quantity },
        ));
    }
}

/// Cancelling an order gives back exactly the stock that placing it took:
/// for any stock levels, taking the movements of an accepted order and then
/// returning the movements read back from its stored item rows (in the
/// order they were written) leaves every level as it was.
pub proof fn cancel_restores_stock(plan: OrderPlanView, item_ids: Seq<Seq<char>>, stock: Map<Seq<char>, int>)
    requires
        item_ids.len() == plan.products.len(),
    ensures
        after_returning(
            after_taking(stock, takes_of(plan.products)),
            returns_of(Seq::new(plan.products.len(), |i: int| stored_row(record_of(plan.products[i], item_ids[i])))),
        ) == stock,
{
    lemma_returns_of_stored(plan.products, item_ids);
    let taken = after_taking(stock, takes_of(plan.products));
    let back = after_returning(taken, takes_of(plan.products));
    assert(back =~= stock);
}

/// The priced line that an accepted item becomes.
pub open spec fn priced_line(order_id: Seq<char>, item: ItemView, p: SnapshotView) -> LineView {
    LineView {
        order_id,
        product_id: item.product_id,
        product_name: p.name,
        quantity: item.quantity,
        total_price: product_of(p.price.mantissa as int, p.price.scale as int, item.quantity as int, 0)->0,
    }
}

proof fn lemma_running_prefix(
    order_id: Seq<char>,
    items: Seq<ItemView>,
    lookups: Seq<Option<SnapshotView>>,
    n: nat,
)
    requires
        n <= items.len(),
        lookups.len() == items.len(),
    ensures
        eval_prefix(order_id, items, lookups, n) matches OrderEval::Running { total, lines } ==> {
            &&& lines.len() == n
            &&& forall|j: int| 0 <= j < n ==> {
                &&& #[trigger] lookups[j] matches Some(p)
                &&& p.status == Some("listed"@)
                &&& items[j].quantity <= p.stock
                &&& lines[j] == priced_line(order_id, items[j], p)
            }
        },
    decreases n,
{
    if n > 0 {
        lemma_running_prefix(order_id, items, lookups, (n - 1) as nat);
    }
}

/// An accepted order holds one priced line per requested line, in request
/// order; each of its products was found, is listed, and had at least the
/// requested quantity in stock; each line keeps the product id and quantity
/// asked for and the product's name, and its total is price times quantity.
pub proof fn accepted_orders_hold_listed_products_in_stock(
    order_id: Seq<char>,
    request: OrderRequestView,
    lookups: Seq<Option<SnapshotView>>,
)
    requires
        lookups.len() == request.products.len(),
    ensures
        order_outcome(order_id, request, lookups) matches OrderOutcome::Accepted(plan) ==> {
            &&& plan.products.len() == request.products.len()
            &&& plan.user_id == request.user_id
            &&& plan.shipping_address == request.shipping_address
            &&& forall|j: int| 0 <= j < request.products.len() ==> {
                &&& #[trigger] lookups[j] matches Some(p)
                &&& p.status == Some("listed"@)
                &&& request.products[j].quantity <= p.stock
                &&& plan.products[j] == priced_line(order_id, request.products[j], p)
            }
        },
{
    lemma_running_prefix(order_id, request.products, lookups, request.products.len());
}

/// Sum over the first `n` lines of price times quantity, as mantissas
/// written with `scale` decimal places (a line without a product counts 0).
pub open spec fn scaled_sum(items: Seq<ItemView>, lookups: Seq<Option<SnapshotView>>, scale: int, n: nat) -> int
    decreases n,
{
    if n == 0 {
        0
    } else {
        scaled_sum(items, lookups, scale, (n - 1) as nat) + match lookups[n - 1] {
            Some(p) => rescaled(p.price.mantissa * items[n - 1].quantity, p.price.scale as int, scale),
            None => 0,
        }
    }
}

/// Every product found is priced with at most `scale` decimal places.
pub open spec fn prices_within_scale(lookups: Seq<Option<SnapshotView>>, scale: int) -> bool {
    forall|i: int| 0 <= i < lookups.len() ==> (#[trigger] lookups[i] matches Some(p) ==> p.price.scale <= scale)
}

/// Every line total and every running sum of line totals, written with
/// `scale` places, fits a decimal.
pub open spec fn scaled_sums_fit(items: Seq<ItemView>, lookups: Seq<Option<SnapshotView>>, scale: int) -> bool {
    &&& forall|i: int| 0 <= i < lookups.len() ==> (#[trigger] lookups[i] matches Some(p) ==> fits_mantissa(
        rescaled(p.price.mantissa * items[i].quantity, p.price.scale as int, scale),
    ))
    &&& forall|k: nat| k <= items.len() ==> fits_mantissa(#[trigger] scaled_sum(items, lookups, scale, k))
}

/// The running total `total` stands for `sum` when written with `scale`
/// places.
pub open spec fn total_stands_for(total: (int, int), scale: int, sum: int) -> bool {
    ||| (total.0 == 0 && sum == 0)
    ||| (0 <= total.1 <= scale && rescaled(total.0, total.1, scale) == sum)
}

proof fn lemma_rescale_compose(x: int, a: int, b: int, c: int)
    requires
        a <= b <= c,
    ensures
        rescaled(rescaled(x, a, b), b, c) == rescaled(x, a, c),
{
    lemma_pow10_add((b - a) as nat, (c - b) as nat);
    assert(((b - a) as nat + (c - b) as nat) as nat == (c - a) as nat);
    let p = pow10((b - a) as nat);
    let q = pow10((c - b) as nat);
    assert((x * p) * q == x * (p * q)) by (nonlinear_arith);
}

proof fn lemma_fits_below(x: int, a: int, b: int)
    requires
        a <= b,
        fits_mantissa(rescaled(x, a, b)),
    ensures
        fits_mantissa(x),
{
    lemma_pow10_positive((b - a) as nat);
    let p = pow10((b - a) as nat);
    assert(x >= 0 ==> x <= x * p) by (nonlinear_arith)
        requires
            p >= 1,
    ;
    assert(x < 0 ==> x * p <= x) by (nonlinear_arith)
        requires
            p >= 1,
    ;
}

proof fn lemma_rescale_add(x: int, y: int, a: int, b: int)
    requires
        a <= b,
    ensures
        rescaled(x + y, a, b) == rescaled(x, a, b) + rescaled(y, a, b),
{
    let p = pow10((b - a) as nat);
    assert((x + y) * p == x * p + y * p) by (nonlinear_arith);
}

proof fn lemma_prefix_total(
    order_id: Seq<char>,
    items: Seq<ItemView>,
    lookups: Seq<Option<SnapshotView>>,
    scale: int,
    n: nat,
)
    requires
        n <= items.len(),
        lookups.len() == items.len(),
        0 <= scale <= MAX_SCALE,
        prices_within_scale(lookups, scale),
        scaled_sums_fit(items, lookups, scale),
    ensures
        !(eval_prefix(order_id, items, lookups, n) is Overflow),
        eval_prefix(order_id, items, lookups, n) matches OrderEval::Running { total, lines } ==> {
            &&& total.1 >= 0
            &&& total_stands_for(total, scale, scaled_sum(items, lookups, scale, n))
        },
    decreases n,
{
    if n > 0 {
        let k = (n - 1) as nat;
        lemma_prefix_total(order_id, items, lookups, scale, k);
        assert(fits_mantissa(scaled_sum(items, lookups, scale, n)));
        assert(fits_mantissa(scaled_sum(items, lookups, scale, k)));
        if let OrderEval::Running { total, lines } = eval_prefix(order_id, items, lookups, k) {
            if line_rejection(items[k as int], lookups[k as int]) is None {
                let p = lookups[k as int]->0;
                let q = items[k as int].quantity as int;
                let m = p.price.mantissa as int;
                let s = p.price.scale as int;
                let mq = m * q;
                let c = rescaled(mq, s, scale);
                let sum_before = scaled_sum(items, lookups, scale, k);
                assert(p.price.scale <= scale);
                assert(fits_mantissa(c));
                assert(scaled_sum(items, lookups, scale, n) == sum_before + c);
                if mq != 0 {
                    lemma_fits_below(mq, s, scale);
                    assert(product_of(m, s, q, 0) == Some((mq, s)));
                    if total.0 != 0 {
                        let t = max_scale(total.1, s);
                        let a = rescaled(total.0, total.1, t);
                        let b = rescaled(mq, s, t);
                        lemma_rescale_compose(total.0, total.1, t, scale);
                        lemma_rescale_compose(mq, s, t, scale);
                        lemma_fits_below(a, t, scale);
                        lemma_fits_below(b, t, scale);
                        lemma_rescale_add(a, b, t, scale);
                        lemma_fits_below(a + b, t, scale);
                        assert(sum_is_exact(total.0, total.1, mq, s));
                        assert(sum_of(total.0, total.1, mq, s) == Some((a + b, t)));
                        assert(rescaled(a + b, t, scale) == sum_before + c);
                        assert(total_stands_for((a + b, t), scale, sum_before + c));
                    } else {
                        assert(sum_before == 0) by {
                            assert(0 * pow10((scale - total.1) as nat) == 0);
                        }
                        assert(sum_of(total.0, total.1, mq, s) == Some((mq, s)));
                        assert(total_stands_for((mq, s), scale, sum_before + c));
                    }
                } else {
                    assert(c == 0) by {
                        assert(mq * pow10((scale - s) as nat) == 0) by (nonlinear_arith)
                            requires
                                mq == 0,
                        ;
                    }
                    assert(product_of(m, s, q, 0) == Some((0int, 0int)));
                    if total.0 == 0 {
                        assert(sum_before == 0) by {
                            assert(0 * pow10((scale - total.1) as nat) == 0);
                        }
                        assert(total_stands_for((0, 0), scale, sum_before + c));
                    } else {
                        assert(total_stands_for(total, scale, sum_before + c));
                    }
                }
            }
        }
    }
}

/// The total of an order is the sum of its lines, each line being price
/// times quantity: for any number of places `scale` (at most 28) that no
/// price exceeds, when every line total and every running sum written
/// with `scale` places fits a decimal, pricing never overflows, and an
/// accepted order's total, written with `scale` places, is the sum of price
/// times quantity over its lines written the same way (a zero total stands
/// for a zero sum). Prices of mixed scales are brought to the larger scale
/// as they are added.
pub proof fn order_total_is_sum_of_lines(
    order_id: Seq<char>,
    request: OrderRequestView,
    lookups: Seq<Option<SnapshotView>>,
    scale: int,
)
    requires
        lookups.len() == request.products.len(),
        0 <= scale <= MAX_SCALE,
        prices_within_scale(lookups, scale),
        scaled_sums_fit(request.products, lookups, scale),
    ensures
        order_fits(order_id, request, lookups),
        order_outcome(order_id, request, lookups) matches OrderOutcome::Accepted(plan) ==> total_stands_for(
            plan.total_amount,
            scale,
            scaled_sum(request.products, lookups, scale, request.products.len()),
        ),
{
    lemma_prefix_total(order_id, request.products, lookups, scale, request.products.len());
}

/// The status names an order can carry.
#[derive(Clone, Copy, Debug, PartialEq, Eq, Structural)]
pub enum OrderStatus {
    Pending,
    Shipped,
    Delivered,
    Cancelled,
}

/// The status a stored status name stands for; an unknown name falls back
/// to `Pending`.
pub open spec fn status_from_name(s: Seq<char>) -> OrderStatus {
    if s == "pending"@ {
        OrderStatus::Pending
    } else if s == "shipped"@ {
        OrderStatus::Shipped
    } else if s == "delivered"@ {
        OrderStatus::Delivered
    } else if s == "cancelled"@ {
        OrderStatus::Cancelled
    } else {
        OrderStatus::Pending
    }
}

impl<'a> From<&'a str> for OrderStatus {
    fn from(s: &'a str) -> (r: OrderStatus) {
        if str_equal(s, "pending") {
            OrderStatus::Pending
        } else if str_equal(s, "shipped") {
            OrderStatus::Shipped
        } else if str_equal(s, "delivered") {
            OrderStatus::Delivered
        } else if str_equal(s, "cancelled") {
            OrderStatus::Cancelled
        } else {
            OrderStatus::Pending
        }
    }
}

impl<'a> vstd::std_specs::convert::FromSpecImpl<&'a str> for OrderStatus {
    open spec fn obeys_from_spec() -> bool {
        true
    }

    open spec fn from_spec(v: &'a str) -> OrderStatus {
        status_from_name(v@)
    }
}

/// A status after which an order never changes again.
pub open spec fn is_final_status(s: Seq<char>) -> bool {
    s == "delivered"@ || s == "cancelled"@
}

/// A status an admin may move an order to.
pub open spec fn is_admin_target(s: Seq<char>) -> bool {
    s == "shipped"@ || s == "delivered"@
}

/// Only admins change order status: 403 for other roles, 401 without a
/// session, both as JSON errors.
pub fn update_status_access(claims: Option<&Claims>) -> (r: Result<(), Reply>)
    ensures
        result_view(r) == guard_outcome(
            role_access(claims_view(claims), "admin"@),
            BodyKind::JsonError,
            "Only admins can update order status"@,
            "Unauthorized access"@,
        ),
{
    let access = check_role(claims, "admin");
    guard(access, BodyKind::JsonError, "Only admins can update order status", "Unauthorized access")
}

pub open spec fn opt_opt_view(s: Option<Option<String>>) -> Option<Option<Seq<char>>> {
    match s {
        Some(x) => Some(opt_string_view(x)),
        None => None,
    }
}

/// The admin status rule. `current` is the stored status of the order
/// (`None` when there is no such order); the requested name is
/// lowercased first. Missing order, 404; no status, a final status, or a
/// target other than shipped or delivered, 400; else the new status.
pub open spec fn status_update_outcome(
    current: Option<Option<Seq<char>>>,
    requested: Seq<char>,
) -> Result<Seq<char>, ReplyView> {
    let target = lowercase(requested);
    match current {
        None => Err(reply_of(Status::NotFound, BodyKind::JsonError, "Order not found"@)),
        Some(None) => Err(reply_of(Status::BadRequest, BodyKind::JsonError, "Order has no status set"@)),
        Some(Some(s)) => if is_final_status(s) {
            Err(reply_of(Status::BadRequest, BodyKind::JsonError, "Cannot change status from "@ + s))
        } else if !is_admin_target(target) {
            Err(reply_of(Status::BadRequest, BodyKind::JsonError, "Invalid status for admin update"@))
        } else {
            Ok(target)
        },
    }
}

pub open spec fn string_result_view(r: Result<String, Reply>) -> Result<Seq<char>, ReplyView> {
    match r {
        Ok(s) => Ok(s@),
        Err(e) => Err(e@),
    }
}

/// Decides an admin's status change for an order.
pub fn decide_status_update(current: &Option<Option<String>>, requested: &str) -> (r: Result<String, Reply>)
    ensures
        string_result_view(r) == status_update_outcome(opt_opt_view(*current), requested@),
{
    let target = to_lowercase(requested);
    match current {
        None => Err(make_reply(Status::NotFound, BodyKind::JsonError, "Order not found")),
        Some(None) => Err(make_reply(Status::BadRequest, BodyKind::JsonError, "Order has no status set")),
        Some(Some(s)) => {
            if str_equal(s.as_str(), "delivered") || str_equal(s.as_str(), "cancelled") {
                let mut msg = "Cannot change status from ".to_owned();
                msg.append(s.as_str());
                Err(reply_with(Status::BadRequest, BodyKind::JsonError, msg))
            } else if !(str_equal(target.as_str(), "shipped") || str_equal(target.as_str(), "delivered")) {
                Err(make_reply(Status::BadRequest, BodyKind::JsonError, "Invalid status for admin update"))
            } else {
                Ok(target)
            }
        },
    }
}

/// The answer after a status change was stored.
pub fn status_updated_reply(new_status: &str) -> (r: Reply)
    ensures
        r@ == reply_of(Status::Success, BodyKind::JsonMessage, "Order status updated to "@ + new_status@),
{
    let mut msg = "Order status updated to ".to_owned();
    msg.append(new_status);
    reply_with(Status::Success, BodyKind::JsonMessage, msg)
}

/// What the cancel rule reads of an order: its status and its owner.
#[derive(Clone, Debug)]
pub struct OrderOwnership {
    pub status: Option<String>,
    pub user_id: Option<String>,
}

pub struct OwnershipView {
    pub status: Option<Seq<char>>,
    pub user_id: Option<Seq<char>>,
}

impl View for OrderOwnership {
    type V = OwnershipView;

    open spec fn view(&self) -> OwnershipView {
        OwnershipView { status: opt_string_view(self.status), user_id: opt_string_view(self.user_id) }
    }
}

/// Only the `user` role cancels orders: 403 for other roles, 401 without
/// a session, as plain text; when granted, the caller's user id.
pub fn cancel_access(claims: Option<&Claims>) -> (r: Result<String, Reply>)
    ensures
        match role_access(claims_view(claims), "user"@) {
            Access::Granted => r matches Ok(id) && id@ == claims->0.sub@,
            Access::Forbidden => r matches Err(e) && e@ == reply_of(
                Status::Forbidden,
                BodyKind::Text,
                "customer cancel route"@,
            ),
            Access::Unauthenticated => r matches Err(e) && e@ == reply_of(
                Status::Unauthorized,
                BodyKind::Text,
                "anauthorized access"@,
            ),
        },
{
    let access = check_role(claims, "user");
    match guard(access, BodyKind::Text, "customer cancel route", "anauthorized access") {
        Ok(()) => Ok(claims.unwrap().sub.clone()),
        Err(e) => Err(e),
    }
}

/// The cancel rule. Missing order, 404; an order without owner or status,
/// 400; someone else's order, 403; an order already delivered or
/// cancelled, 400; else the order may be cancelled.
pub open spec fn cancel_outcome(user_id: Seq<char>, order: Option<OwnershipView>) -> Result<(), ReplyView> {
    match order {
        None => Err(reply_of(Status::NotFound, BodyKind::JsonError, "Order not found"@)),
        Some(o) => match o.user_id {
            None => Err(reply_of(Status::BadRequest, BodyKind::JsonError, "Order has no associated user"@)),
            Some(owner) => if owner != user_id {
                Err(reply_of(Status::Forbidden, BodyKind::JsonError, "You can only cancel your own orders"@))
            } else {
                match o.status {
                    None => Err(reply_of(Status::BadRequest, BodyKind::JsonError, "Order has no status set"@)),
                    Some(s) => if is_final_status(s) {
                        Err(reply_of(Status::BadRequest, BodyKind::JsonError, "Cannot cancel order with status "@ + s))
                    } else {
                        Ok(())
                    },
                }
            },
        },
    }
}

/// Decides whether the caller may cancel the order.
pub fn decide_cancel(user_id: &str, order: &Option<OrderOwnership>) -> (r: Result<(), Reply>)
    ensures
        result_view(r) == cancel_outcome(user_id@, match order { Some(o) => Some(o@), None => None }),
{
    match order {
        None => Err(make_reply(Status::NotFound, BodyKind::JsonError, "Order not found")),
        Some(o) => match &o.user_id {
            None => Err(make_reply(Status::BadRequest, BodyKind::JsonError, "Order has no associated user")),
            Some(owner) => {
                if !str_equal(owner.as_str(), user_id) {
                    Err(make_reply(Status::Forbidden, BodyKind::JsonError, "You can only cancel your own orders"))
                } else {
                    match &o.status {
                        None => Err(make_reply(Status::BadRequest, BodyKind::JsonError, "Order has no status set")),
                        Some(s) => {
                            if str_equal(s.as_str(), "delivered") || str_equal(s.as_str(), "cancelled") {
                                let mut msg = "Cannot cancel order with status ".to_owned();
                                msg.append(s.as_str());
                                Err(reply_with(Status::BadRequest, BodyKind::JsonError, msg))
                            } else {
                                Ok(())
                            }
                        },
                    }
                }
            },
        },
    }
}

/// The status a newly placed order is stored with.
pub fn initial_status() -> (r: &'static str)
    ensures
        r@ == "pending"@,
        status_from_name(r@) == OrderStatus::Pending,
{
    proof { reveal_strlit("pending"); }
    "pending"
}

/// The message of the answer to an accepted order.
pub fn order_placed_message() -> (r: &'static str)
    ensures
        r@ == "Order placed successfully"@,
{
    "Order placed successfully"
}

/// The status a cancelled order is stored with.
pub fn cancelled_status() -> (r: &'static str)
    ensures
        r@ == "cancelled"@,
        is_final_status(r@),
{
    "cancelled"
}

/// The answer after an order was cancelled.
pub fn cancelled_reply() -> (r: Reply)
    ensures
        r@ == reply_of(Status::Success, BodyKind::JsonMessage, "Order cancelled successfully"@),
{
    make_reply(Status::Success, BodyKind::JsonMessage, "Order cancelled successfully")
}

/// Orders that are delivered or cancelled are final: neither an admin's
/// status change nor a customer's cancellation is accepted for them,
/// whatever is requested and whoever asks.
pub proof fn final_orders_never_change(
    status: Seq<char>,
    owner: Seq<char>,
    requested: Seq<char>,
    caller: Seq<char>,
)
    requires
        is_final_status(status),
    ensures
        status_update_outcome(Some(Some(status)), requested) is Err,
        cancel_outcome(caller, Some(OwnershipView { status: Some(status), user_id: Some(owner) })) is Err,
{
}

/// An admin's status change only ever moves an order to shipped or to
/// delivered.
pub proof fn admin_updates_reach_only_shipped_or_delivered(
    current: Option<Option<Seq<char>>>,
    requested: Seq<char>,
)
    ensures
        status_update_outcome(current, requested) matches Ok(s) ==> is_admin_target(s),
{
}

/// An order looked up for its details: the order, or 404 when there is none.
pub fn order_details_found<T>(found: Option<T>) -> (r: Result<T, Reply>)
    ensures
        match found {
            Some(o) => r == Ok::<T, Reply>(o),
            None => r matches Err(e) && e@ == reply_of(Status::NotFound, BodyKind::JsonError, "Order not found"@),
        },
{
    match found {
        Some(o) => Ok(o),
        None => Err(make_reply(Status::NotFound, BodyKind::JsonError, "Order not found")),
    }
}

proof fn lemma_net_absent(moves: Seq<MoveView>, k: Seq<char>)
    requires
        forall|j: int| 0 <= j < moves.len() ==> (#[trigger] moves[j]).product_id != k,
    ensures
        net_quantity(moves, k) == 0,
    decreases moves.len(),
{
    if moves.len() > 0 {
        lemma_net_absent(moves.drop_last(), k);
    }
}

proof fn lemma_net_bounded(moves: Seq<MoveView>, stock: Map<Seq<char>, int>)
    requires
        forall|i: int, j: int| 0 <= i < j < moves.len() ==> (#[trigger] moves[i]).product_id != (#[trigger] moves[j]).product_id,
        forall|j: int| 0 <= j < moves.len() ==> {
            &&& stock.dom().contains((#[trigger] moves[j]).product_id)
            &&& moves[j].quantity <= stock[moves[j].product_id]
        },
    ensures
        forall|k: Seq<char>| stock.dom().contains(k) && stock[k] >= 0 ==> #[trigger] net_quantity(moves, k) <= stock[k],
    decreases moves.len(),
{
    if moves.len() > 0 {
        let rest = moves.drop_last();
        lemma_net_bounded(rest, stock);
        let last = moves.last();
        assert forall|k: Seq<char>| stock.dom().contains(k) && stock[k] >= 0 implies #[trigger] net_quantity(moves, k)
            <= stock[k] by {
            assert(net_quantity(moves, k) == net_quantity(rest, k) + if last.product_id == k {
                last.quantity as int
            } else {
                0
            });
            assert(moves[moves.len() - 1] == last);
            assert(net_quantity(rest, k) <= stock[k]);
            if last.product_id == k {
                assert forall|j: int| 0 <= j < rest.len() implies (#[trigger] rest[j]).product_id != k by {
                    assert(moves[j] == rest[j]);
                    assert(moves[moves.len() - 1] == last);
                }
                lemma_net_absent(rest, k);
            }
        }
    }
}

/// Placing an accepted order never takes a product's stock below zero,
/// provided the order names each product once and the stock levels it was
/// checked against are the current ones. (Two lines for one product are
/// each checked against the whole stock, so together they can overdraw it.)
pub proof fn accepted_order_keeps_stock_nonnegative(
    order_id: Seq<char>,
    request: OrderRequestView,
    lookups: Seq<Option<SnapshotView>>,
    stock: Map<Seq<char>, int>,
)
    requires
        lookups.len() == request.products.len(),
        forall|i: int, j: int| 0 <= i < j < request.products.len()
            ==> (#[trigger] request.products[i]).product_id != (#[trigger] request.products[j]).product_id,
        forall|j: int| 0 <= j < lookups.len() ==> (#[trigger] lookups[j] matches Some(p) ==> {
            &&& stock.dom().contains(request.products[j].product_id)
            &&& stock[request.products[j].product_id] == p.stock
        }),
    ensures
        order_outcome(order_id, request, lookups) matches OrderOutcome::Accepted(plan) ==> forall|k: Seq<char>|
            stock.dom().contains(k) && stock[k] >= 0 ==> #[trigger] after_taking(stock, takes_of(plan.products))[k] >= 0,
{
    let n = request.products.len();
    lemma_running_prefix(order_id, request.products, lookups, n);
    if let OrderEval::Running { total, lines } = eval_prefix(order_id, request.products, lookups, n) {
        let moves = takes_of(lines);
        assert forall|j: int| 0 <= j < moves.len() implies {
            &&& stock.dom().contains((#[trigger] moves[j]).product_id)
            &&& moves[j].quantity <= stock[moves[j].product_id]
        } by {
            assert(lookups[j] is Some);
        }
        assert forall|i: int, j: int| 0 <= i < j < moves.len() implies (#[trigger] moves[i]).product_id
            != (#[trigger] moves[j]).product_id by {
            assert(lookups[i] is Some);
            assert(lookups[j] is Some);
            assert(request.products[i].product_id != request.products[j].product_id);
        }
        lemma_net_bounded(moves, stock);
    }
}

/// An accepted order is stored and answered under the id it was placed
/// under: the plan's order id, and the order id of every one of its lines,
/// is that id.
pub proof fn accepted_orders_keep_their_id(
    order_id: Seq<char>,
    request: OrderRequestView,
    lookups: Seq<Option<SnapshotView>>,
)
    requires
        lookups.len() == request.products.len(),
    ensures
        order_outcome(order_id, request, lookups) matches OrderOutcome::Accepted(plan) ==> {
            &&& plan.order_id == order_id
            &&& forall|j: int| 0 <= j < plan.products.len() ==> (#[trigger] plan.products[j]).order_id == order_id
        },
{
    let n = request.products.len();
    lemma_running_prefix(order_id, request.products, lookups, n);
    if let OrderEval::Running { total, lines } = eval_prefix(order_id, request.products, lookups, n) {
        assert forall|j: int| 0 <= j < lines.len() implies (#[trigger] lines[j]).order_id == order_id by {
            assert(lookups[j] is Some);
        }
    }
}

/// What an admin's status change comes to, in full: a missing order is
/// 404; an order without status, or already delivered or cancelled, is
/// 400; otherwise the request, lowercased, is accepted exactly when it
/// names shipped or delivered, and the lowercased name is the new status.
pub proof fn admin_status_change_rule(current: Option<Option<Seq<char>>>, requested: Seq<char>)
    ensures
        current is None ==> (status_update_outcome(current, requested) is Err
            && status_update_outcome(current, requested)->Err_0.status == Status::NotFound),
        current == Some(None::<Seq<char>>) ==> (status_update_outcome(current, requested) is Err
            && status_update_outcome(current, requested)->Err_0.status == Status::BadRequest),
        (current is Some && current->0 is Some && (current->0->0 == "delivered"@ || current->0->0 == "cancelled"@))
            ==> (status_update_outcome(current, requested) is Err
            && status_update_outcome(current, requested)->Err_0.status == Status::BadRequest),
        (current is Some && current->0 is Some && current->0->0 != "delivered"@ && current->0->0 != "cancelled"@
            && (lowercase(requested) == "shipped"@ || lowercase(requested) == "delivered"@))
            ==> status_update_outcome(current, requested) == Ok::<Seq<char>, ReplyView>(lowercase(requested)),
        (current is Some && current->0 is Some && current->0->0 != "delivered"@ && current->0->0 != "cancelled"@
            && lowercase(requested) != "shipped"@ && lowercase(requested) != "delivered"@)
            ==> (status_update_outcome(current, requested) is Err
            && status_update_outcome(current, requested)->Err_0.status == Status::BadRequest),
        status_update_outcome(current, requested) is Ok ==> (status_update_outcome(current, requested)->Ok_0
            == lowercase(requested) && current is Some && current->0 is Some && current->0->0 != "delivered"@
            && current->0->0 != "cancelled"@),
{
}

/// What a cancellation comes to, in full: the caller may cancel exactly an
/// existing order that is theirs and whose status is set and is neither
/// delivered nor cancelled; someone else's order is 403, a missing one 404.
pub proof fn cancel_rule(caller: Seq<char>, order: Option<OwnershipView>)
    ensures
        cancel_outcome(caller, order) is Ok <==> (order is Some && order->0.user_id == Some(caller)
            && order->0.status is Some && order->0.status->0 != "delivered"@
            && order->0.status->0 != "cancelled"@),
        order is None ==> (cancel_outcome(caller, order) is Err
            && cancel_outcome(caller, order)->Err_0.status == Status::NotFound),
        (order is Some && order->0.user_id is Some && order->0.user_id->0 != caller) ==> (cancel_outcome(
            caller,
            order,
        ) is Err && cancel_outcome(caller, order)->Err_0.status == Status::Forbidden),
{
}

} // verus!
