# paykit

Building blocks for a payments platform, verified with Verus.

- `src/` is the verified library: request signing, AES-GCM encryption,
  password hashing (Argon2, bcrypt), JWT request authentication decisions,
  token validation, sessions, rate limiting, CORS configuration, the
  WebSocket hub and its payloads, email and SMS messages and their
  templates, API response envelopes, and the payment model: providers,
  intents, payouts, subscriptions, invoices, configuration, and the
  decisions of the Stripe and Paystack gateways (request bodies, status
  mappings, webhook events and webhook signature headers). Webhook
  signatures are checked for their form only: a Stripe header must hold a
  `t=` and a `v1=` part, a Paystack signature must be non-empty; neither is
  checked as an HMAC of the payload. Calls into outside crates
  (hashing, encryption, encoding, clocks, random numbers) go through small
  trusted wrappers whose contracts say what those crates promise.
- `tests/` runs the library on concrete values.
- `app/` holds what performs I/O around the library: the actix-web JWT
  middleware, logging setup, JSON forms, locked shared stores, and the
  asynchronous email, SMS and payment gateway clients.
