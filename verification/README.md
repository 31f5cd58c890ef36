# auracle

The decision logic behind the Auracle trading IDE's surfaces — the strategy
cockpit, the live-deploy gate, the connection settings and first-run setup,
the Desk, Flow, Live Algorithms and blotter panels, the QuantConnect import,
the spec compiler and the artifact store — written in Verus and proved
against its contracts.

- `src/` is the verified library. Each module holds one surface's state, the
  transitions the surface makes as the engine answers and the operator
  clicks, and the text it shows, with `requires`/`ensures` over spec
  functions. Laws that span several calls stand as public `proof fn`s
  (`lemma_*`).
- `tests/` runs the library on concrete values.
- `app/` is the thin ordinary-Rust edge: decoding the engine's JSON with
  serde, the configuration file and environment, and the floating-point
  amounts (formatting, chart geometry, canvas positions), each handing plain
  values to the library and taking plain values back.

Honesty rules run through the library: a connector reads "connected" only
when the engine says so, a missing number reads "Unknown" rather than zero,
a slow reply never paints over a newer context, and a live (real-money)
deploy is sent only on a confirming second click while live trading is
allowed.
