# rustbill_core

The billing core of a subscription-billing service, as a library whose rules are
verified with Verus.

- `src/` is the verified library. `money` holds decimal amounts (the arithmetic of
  `rust_decimal`, with comparison, rounding and printing proved here), `time` holds
  instants as Unix seconds, `models` the stored records, and `billing`, `auth` and
  `analytics` the rules of each service. Each service reaches storage and payment
  providers through a repository trait; each decision it takes is a function with a
  contract, and the laws that span functions are proof functions beside them. Each
  repository method comes with a relation that holds of every answer the store can
  give for the arguments handed to it, and each method that writes takes the store
  mutably and names the store it leaves (`after_<method>`); the services state their
  results, and which writes they make in which order, in terms of those answers and
  states, without assuming anything about a particular store.
- `tests/` runs the library on concrete values, with in-memory repositories.
- `app/` is the edge: PostgreSQL repositories, the HTTP calls to Stripe, Xendit and the
  identity provider, JSON forms of results, and drawing the invoice PDF with `printpdf`.
