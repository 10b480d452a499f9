# quickblog

QuickBlog summarizes articles for signed-in users and keeps each user's
history. This crate holds its logic as a Verus library, with the API server
and the browser client around it.

- `src/` is the verified library:
  - `text`: Unicode whitespace, trimming, whitespace collapsing;
  - `errors`: the API's error answers, each with its status and message;
  - `account`: email normalisation, the signup rule, bcrypt hashing and the
    login check, and the signup and login decisions;
  - `token`: HS256 tokens that carry a user id and a seven-day expiry, and
    reading them back from the `Authorization` header;
  - `summary`: the article rule, the request to the summarization service
    and the summarize handler's step function;
  - `history`: history rows as the API answers them;
  - `display`, `client`: what the browser client shows and decides between
    its requests;
  - `config`: the server's settings.
- `tests/` runs the library on concrete values.
- `app/` is the program: the Axum server (native builds) and the Yew client
  (WebAssembly builds), which do the I/O and hand plain values to the library.

Calls into bcrypt, jsonwebtoken, base64, serde_json and chrono go through
small trusted wrappers whose contracts are stated in their doc comments.
