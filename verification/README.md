# samba

Typed rate-limited consumer primitive, verified with Verus: *"don't let any
caller exceed its share of an upstream API budget"* as a theorem.

- `src/` is the verified library. `LeakyBucket` paces requests at `quota_pct` of
  the upstream's reported limit and slows down when the upstream runs low;
  `JetStreamPullWorker` decides, event by event, what a worker does next. All
  arithmetic is exact: fractions are `Ratio`s, rates are `Rate`s, tokens are
  counted in whole units. `pacing` and `dispatching` state and prove what holds
  over any course of events.
- `app/` is the run time around it: YAML files, NATS, the clock, Prometheus.
- `tests/` runs the library on concrete values.

`quota_pct` is the one knob:

```text
target_rpm = quota_pct * observed_X-RateLimit-Limit / 60
```

`budget_pct_max` caps it. `requests_per_minute_override` sets a fixed rate
instead, which observed limits leave as it is; it is held against
`budget_pct_max` percent of `budget_per_hour`, with a thousandth to spare.
