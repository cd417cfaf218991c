# thalo_sql

An SQL event store whose core is verified with Verus.

- `src/` – the verified library:
  - `select.rs`: `Select`, which events a stream selection captures, and its laws;
  - `event.rs`: the envelope handed out for a stored event, loaded rows, encoded events and new rows;
  - `store.rs`: the latest sequence of an aggregate, the numbering of events to save
    (`new_event_rows`), the assembly of loaded rows into envelopes (`envelopes_from_rows`),
    and the law that numbering keeps a stream gapless;
  - `error.rs`: `StoreError` and the declarations of the `serde_json` and `sea_orm` types it carries.
- `app/` – the database side (sea-orm entity, migration, queries, transactions), JSON
  encoding and decoding of events, the bank-account example aggregate (its amounts are `f64`),
  and `main`.
- `tests/` – tests of the library.
