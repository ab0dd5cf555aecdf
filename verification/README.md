# blog_api

The verified core of a small blogging service: sign-up and log-in with
password digests, HS256 bearer tokens, posts and their authors, and the
error values that routes answer with.

- `src/` is the library, checked by Verus. Each module states its contracts
  over views (`Seq<char>` for text, `RouteErrorView` for errors).
  - `status`, `error`: status codes and the route error (status, chain of
    messages, kind of root error), with the laws that relate status and
    context.
  - `text`: splitting at white space, decimal numerals, JSON string literals,
    header text.
  - `models`, `digest`, `jwt`, `clock`: records, password digests
    (`pretty-sha2`), token claims and tokens (`jsonwebtoken`), the clock.
  - `auth`, `posts`, `logging`: what sign-up, log-in, the bearer check, the
    post routes and the logger decide.
- `app/` is the server around it: axum routes, the SurrealDB store, the
  environment and the log file.
- `tests/` runs the library on concrete values.
