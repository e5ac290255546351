# onedrive_api

A client library for the OneDrive API through Microsoft Graph, verified with Verus.

- `src/` is the verified library. It builds every request of the API as a plain value
  (method, URL, headers, body), validates file names and item paths, renders query
  options, computes OAuth2 parameters, keeps the paging state of listings and change
  tracking, and classifies responses and errors. Each public function states what it
  returns in its contract; the laws that span several functions are public proof
  functions.
- URL encoding, form encoding and JSON string encoding are done by the `url`,
  `serde_urlencoded` and `serde_json` crates. In `src/urls.rs` the JSON string literal
  is stated exactly; the URL and form encodings are named, and the library's contracts
  are stated over those names.
- `app/` sends the requests with `reqwest`, parses JSON responses with `serde`, and runs
  the paging loops, handing each response back to the library.
- `tests/` runs the library on concrete values.
