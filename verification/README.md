# tpt_consumer

A queue consumer for a trailer-loading plant. For each new shipment order it reads the
inventory snapshot of the trip, updates the shipment document, and publishes plant asset
and stock location snapshots; it also stores plant asset snapshots and vehicle PLC logs.

- `src/` is the verified library (Verus): message decoding (`messages`), SQL text
  (`queries`, `timestamps`), the shipment update and aging selection (`shipment`), text
  utilities (`text`), the per-order processing machine (`workflow`), the listener
  supervision decision (`supervisor`), the records (`models`) and the error type (`error`).
- `app/` is the program around it: queue listeners, database and document-store access,
  serde copies of the records, and `main`.
- `tests/` exercises the library on concrete values.
