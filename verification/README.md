# shopfront

The decision-making core of a small e-commerce HTTP service (accounts,
products, orders, sales reports, out-of-stock alerts), written in Verus.

- `src/` is the verified library. Every request handler of the service asks
  it what to do: who may call a route (`auth`), whether a sign-up or login is
  accepted (`auth`), how an order is checked and priced and which stock
  movements placing or cancelling it makes (`order`, `money`), how order
  statuses may change (`order`), how a partial product update is merged
  (`product`), which report query runs (`report`), and what the stock-alert
  e-mail says (`alert`). Answers are `reply::Reply` values: a status, a body
  kind and a message.
- `app/` is the actix-web server around it: MySQL through sqlx, ClickHouse,
  Kafka, SMTP, password hashing and session tokens.
- `tests/` runs the library on concrete values.

Main proved properties: when no line total or running sum overflows a
decimal, an order's total is the sum of price times quantity over its lines,
prices of different decimal places included
(`order::order_total_is_sum_of_lines`); an accepted order only
holds listed products with enough stock
(`order::accepted_orders_hold_listed_products_in_stock`,
`order::accepted_order_keeps_stock_nonnegative`); cancelling gives back the
stock that placing took (`order::cancel_restores_stock`); delivered and
cancelled orders never change (`order::final_orders_never_change`).
