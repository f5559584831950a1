# paywall_quota

A verified library for two tenant-contract policies that run against a
host-owned key-value store:

- `src/paywall.rs`: a spend gate. A priced call is granted only within the
  per-call cap and within what is left of the caller's session budget; the
  session spend is stored per caller as eight little-endian bytes.
- `src/quota.rs`: per-caller usage counters stored as JSON `{used, limit}`,
  with a hard stop at the limit, a ceiling on first-touch limits, an explicit
  reset and a daily roll-over (the reset window of a counter's last granted
  consume is stamped under its own key).
- `src/le.rs`: little-endian coding of unsigned 64-bit integers.
- `src/text.rs`: decimal and lowercase hex rendering, byte lengths.
- `src/json.rs`: the two calls into `serde_json` that the stores need.

Contracts and laws (proof functions named `lemma_*`) are checked by Verus.
`app/` holds the entry points that decode JSON requests, talk to the host and
encode the answers; `tests/` runs the library on concrete values.
