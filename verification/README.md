# auth0_flow

A verified core for an Auth0 login with PKCE and a bearer-token guard in front of
an API, written in Verus.

- `src/` is the library. Its functions are verified, except a few small trusted
  wrappers (marked `Trusted:` in their doc comments) around `rand`, `base64`, `sha2`,
  `urlencoding`, `jsonwebtoken` and std's `String::push`, whose contracts state what
  those crates do:
  - `pkce`: code verifier and S256 code challenge (RFC 7636);
  - `cookie`: the `pkce_verifier` cookie, written at login and read on the callback page;
  - `oauth`: authorize, token and logout requests;
  - `auth`, `auth::auth`, `callback`, `testauth`: the browser side of the flow;
  - `middleware`, `jwks`: which requests the API lets through, and which key checks a token;
  - `apis`, `server`: the API's operations and the server's back-channel code exchange;
  - `text`: the text functions the rest is built on.
- `app/` holds the API server (axum) and the browser front end (yew): network calls,
  the browser, JSON, the command line.
- `tests/` runs the library on concrete values.
