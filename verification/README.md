# VoltPass trip ledger

The Trip Room of VoltPass (resident-only EV sharing) as a verified library: the tables of the
ledger, the reducers that move a trip through its lifecycle

```
RESERVED -> CHECK_IN_STARTED -> VEHICLE_VERIFIED -> UNLOCK_GRANTED -> TRIP_ACTIVE
         -> RETURN_STARTED -> AI_REVIEWING -> CLOSED
```

and the laws that hold across them.

- `src/rows.rs` — the rows of the tables and their views.
- `src/ledger.rs` — the ledger (one map per table, keyed by primary key, plus the
  auto-increment sequences), its view and the single-table writes.
- `src/reducers.rs` — each reducer, stated as a function from the ledger before to the
  ledger after and the answer, and implemented against that statement.
- `src/laws.rs` — what holds across reducers: the lifecycle only moves forward, rejected
  requests change nothing, the agent's writes are idempotent, history only grows, no vehicle
  is double-booked, a reset forgets what came before, a telemetry stream and the demo trip
  end as the README describes.
- `src/load.rs` — building a ledger from the rows the database holds and the values its
  sequences were kept at, so that no id is handed out twice.
- `src/messages.rs`, `src/text.rs`, `src/state.rs` — the texts the ledger writes.
- `app/lib.rs` — the SpacetimeDB module: the tables, and reducers that load the ledger, run the
  library's reducer and store the result.
