# wealthfolio

Verified pieces of a personal portfolio tracker, written in Verus.

- `src/data_consistency.rs`: the data consistency health check. It groups consistency records
  by type and reports one health issue per type, with an identity hash, a title, details and
  a navigation or fix action. `src/consistency_laws.rs` proves what holds of the analysis as a
  whole (issue identity does not depend on record order; one issue per type; the shape of each
  issue).
- `src/broker_patch.rs`: user edits to broker-imported activities: the normalized broker
  identity, the SHA-256 entity id of the edit, and validation of received payloads.
- `src/mcp.rs`: the settings of the embedded MCP server and the state machine that starts,
  stops and reconfigures it.
- `src/dev_addons.rs`: the registry of add-on manifests served by a development server.
- `src/calendar.rs`, `src/decimal.rs`, `src/fingerprint.rs`, `src/text.rs`,
  `src/health_model.rs`: dates, decimals (through `rust_decimal`), the order-free data hash,
  text utilities and the health issue model.

`app/` holds what Verus does not see: chrono and rust_decimal conversions, the serde forms of
patch payloads, and the asynchronous driver of the MCP state machine.
