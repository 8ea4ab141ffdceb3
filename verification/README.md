# billing

The rules of a billing microservice, verified with Verus: how orders move
through their payment states, how fees, payouts and store subscriptions are
computed and paid, how invoices get their exchange rates and captured
amounts, and who may reach which records. Monetary values are amounts of
minimal units (cents, wei) held in `u128`.

- `src/` is the verified library. Each module states its rules as
  contracts over spec functions; laws that span several functions are public
  proof functions beside them.
- `tests/` runs the library on concrete values.
- `app/` is the periodic subscriptions job: it reads its settings, talks
  HTTP to the stores and billing services, and leaves the counting to the
  library.
