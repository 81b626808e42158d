# rust_api

An account service: sign-up and sign-in by e-mail and password, by a mobile
device identifier or through Google; short-lived access tokens (JWT) and
rotating refresh tokens stored only as hashes; profile, name and password
changes.

## Layout

- `src/` is the library, verified with Verus.
  - `domain/`: value objects (e-mail, user name, plans, providers), users,
    their credentials, refresh tokens and subscriptions, and the domain errors.
  - `usecase/`: each use case is a small state machine. `start` takes the
    input and either finishes or names one request for the stores
    (`usecase::repo::RepoRequest`); `resume` takes the stores' reply (and,
    for steps that issue sessions or judge tokens, the time of the step).
    Their contracts say, case by case, what is asked for and what is
    answered.
  - `infra/`: reading stored rows back into the domain, and the Google client
    registration (consent URL, token request form).
  - `presentation/`: request and response shapes, and the mapping from domain
    errors to HTTP status, code and message.
  - `middleware/`: reading the bearer token of a request.
  - `text.rs`: string helpers (trimming, searching, comparing) with their
    specs.
- `tests/`: tests of the library on concrete values.
- `app/`: the server around the library: PostgreSQL stores, the HTTP
  routes, JSON, cookies, the Google HTTP calls, and the loop that performs
  each use case's requests and hands back the replies.

Calls into hashing, password hashing, JWT signing, random bytes and the
clock go through small trusted wrappers whose contracts name or bound what
those crates return.
