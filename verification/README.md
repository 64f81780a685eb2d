# shop_core

The verified core of a small shop service (products, orders, master data,
an audit log) whose HTTP, database, cache and broker plumbing lives in
`app/`.

- `src/` holds the domain logic with Verus contracts: value objects and
  their validation, decimal and integer text, identifiers, the error type
  and its HTTP status, and the workflows of creating an order, reading and
  creating products through the cache, and sweeping the product cache.
  Each workflow is a state machine: a step takes the reply to the last
  action and gives the next state and action; `app/` performs the actions
  (SQL, Redis, NATS, the floating-point tax arithmetic) and feeds the
  replies back.
- `tests/` drives the workflows with stand-in stores and checks concrete
  scenarios.
- `app/` is the server: axum handlers, sqlx repositories, the Redis cache
  and master data, the NATS publisher and subscriber, and start-up.
