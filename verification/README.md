# lunchbox

A small service for organising shared lunch orders: someone opens a meal at a
restaurant, people add their orders and payment details, and the meal goes
through its stages (closed, ordered, picked up, delivered).  Restaurant-side
provider accounts log in with a password.

- `src/` is the verified library: the meal lifecycle and its laws, the update
  rules for orders, users and payment methods, the log-in and account
  requests as step functions, the replies each request gets, and the reading
  of the configured port.
- `app/` is the HTTP server around it (actix-web, sqlx on MySQL): it reads
  requests and rows, calls the library, performs the actions it asks for, and
  sends the replies.
- `tests/` exercises the library on concrete values.
