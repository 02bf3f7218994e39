# domain

The domain layer of a payment service: money amounts, payer data (name, e-mail,
CPF/CNPJ documents), expiration instants, identifiers, and the lifecycle of payment
intents, payment attempts and the gateway attempts (Pix, card, boleto) behind them.

Everything under `src/` is verified with Verus. Types are modelled by spec functions
and views, operations carry `requires`/`ensures` contracts, and the properties that
span several operations (a finished gateway attempt ignores further events, a paid
payment stays paid, trimming is idempotent, and so on) are stated and proved as
public proof functions in the `laws` modules.

Calls into `chrono` (RFC 3339 parsing) and `uuid` (generation, parsing, formatting)
sit behind small trusted wrappers whose contracts are documented where they are
declared. `app/` holds the conversions to and from `chrono` and `uuid` types and the
`thiserror` error types; `tests/` exercises the library from outside.
