# openfga (verified core)

The core of an async Rust SDK for [OpenFGA](https://openfga.dev), written in
Verus.

- `src/apis/` — query-string encoding (`urlencode`), the classification of
  HTTP responses into results and errors (`status_is_success`,
  `response_error`, `parse_response_content`), and the API error type
  `ApiError` with its text. `form_encoding.rs` states the
  `application/x-www-form-urlencoded` serialization as a function and proves
  what holds of it (every output character is query-safe, decoding gives the
  input back, distinct inputs give distinct outputs). `foreign.rs` holds the
  declarations of outside types and the trusted calls into `url` and `http`.
- `src/models/` — the request and response models with their constructors.
- `app/` — plain Rust around the library: reading `reqwest` responses,
  `Display` and `std::error::Error` for API errors, and the serde (JSON)
  forms of the models.
- `tests/` — tests of the library on concrete values.
