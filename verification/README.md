# backend

The verified core of a marketplace backend, written in Verus.

- `src/error.rs`: the errors answered to users (text and HTTP status) and the
  classification of database-driver errors.
- `src/item_handler.rs`: the decisions of the item routes and the answers they give.
- `src/chat_server.rs`: the registry of chat sessions, the handling of a chat
  message (forwarding, storing, unread count, push notification) and of a
  request to join a chat, as state machines fed with the outcome of each step.
- `src/uploads.rs`: object keys, URLs and sizes of the object-storage client.
- `src/decimal.rs`: base-ten rendering of integers used in messages.

`app/` holds the plumbing that Verus does not see: the actix actor and routes,
the SQL queries, S3 and file requests, and the serde and sqlx derives.
