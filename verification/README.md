# taskmanager_api

A small REST service for registering users and managing JWT sessions,
written so that its decisions are proved with Verus.

- `src/` is the verified library: the application state and its request
  counters (`state`, `health`), the sign-up rules (`models`, `validation`,
  `db`), the error bodies (`error`), the decisions of the route handlers
  (`routes`), the session lifetimes (`middleware`), and laws relating them
  (`laws`).
- `app/` is the actix-web server around it: HTTP routing, JSON, the MongoDB
  and Redis clients, and the session middleware.
- `tests/` runs the library on concrete requests.
