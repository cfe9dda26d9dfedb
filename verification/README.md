# overwatch

Back office for shipping preparation: a product nomenclature with serial
numbers (and automatic product detection from a scanned serial number),
shipments imported from finalized invoices of the invoicing platform, and
orders pushed to the carrier platform for a human to review and label.

## Layout

- `src/` — the library, verified with Verus:
  - `text` — blank detection, decimal formatting, and integer and amount parsing
  - `error` — the application's errors and their HTTP answers
  - `config` — settings from environment values
  - `auth` — basic authorization (every route but `/health`)
  - `ident` — identifiers and instants, with their text forms
  - `pattern` — detection patterns (regular expressions)
  - `nomenclature` — products and serial numbers
  - `shipping` — shipments, their lines, and recorded orders
  - `pennylane` — the invoicing platform's requests and retry policy
  - `sync` — the invoice import, as a state machine
  - `sendcloud` — orders for the carrier platform and its answers
- `tests/` — tests of the library on concrete values.
- `app/` — the HTTP server (axum), storage (sea-orm, PostgreSQL), the
  platforms' HTTP clients (reqwest), JSON forms of the records, and the
  schema migrations (`overwatch migrate`).
