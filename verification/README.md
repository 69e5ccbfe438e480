# ecommerce

The verified core of a small e-commerce backend made of gRPC/HTTP
microservices: authentication, users, roles, products and orders.

`src/` is the library, verified with Verus. It holds the decisions of the
services as functions with contracts:

- `errors`: repository and service errors, their gRPC statuses and HTTP
  answers, and the statuses received from other services.
- `login`, `register`, `identity`, `order`, `user_service`: each service
  operation as a flow of steps. A step names the outside action to perform
  (a cache read, a query, a hash, a publication); the caller performs it and
  hands the outcome to the next method, until the flow answers.
- `lookup`, `pagination`: cached pages and single-row lookups, page windows
  and page counts.
- `product`, `events`, `config`, `datetime`, `random`, `text`, `model`,
  `requests`, `responses`, `repository`, `services`, `template`, `metrics`:
  the data the services exchange and the smaller rules around it.

Laws that relate several steps stand as public proof functions beside the
flows they speak of (for example `order::lemma_update_published_iff_quantity_changed`
or `login::lemma_failures_lock_out`).

`tests/` runs the library on concrete values. `app/` is the unverified edge:
JSON wire types, gRPC and HTTP error answers, the environment, and async
drivers that run the flows against the outside services.
