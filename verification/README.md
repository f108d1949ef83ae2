# rocket_blog

A small blog with file-backed user and post stores. The request logic is a
Verus-verified library under `src/`; the web server around it is in `app/`.

- `src/crypto.rs`: password hashing (SHA-512 of the UTF-8 bytes, lower-case hex).
- `src/stamp.rs`: random post identifiers and timestamps.
- `src/database/`: the stores and their lookups; `model.rs` holds stores of the simple records in `user/model.rs` and `blog/model.rs`.
- `src/blog/`: the paged index, creating and editing posts.
- `src/user/`: login, profile and settings pages, and the administrator's actions.
- `app/`: Rocket routes, cookies, templates and the JSON files.
