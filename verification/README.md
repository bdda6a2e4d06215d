# strategy_core_v3

The decision contracts between a trading host and a Strategy kernel (Decision V4, V5 and V6):
their validation rules, the identities and digests they bind, and their bincode wire forms.
Each public function states in its `ensures`, over spec functions and views, what it returns,
and Verus proves it against the function's body.

## Layout

- `src/` — the verified library.
  - `text.rs`, `digest.rs`, `wire.rs`, `wire_read.rs`: byte-level text rules, SHA-256 framing,
    and what bincode writes and reads for each primitive (the only calls into `sha2` and
    `bincode`, behind small trusted wrappers).
  - `decision_v4.rs`, `codec_v4.rs`, `read_v4.rs`: the V4 owner projection, its validation, its
    fence digest, and its encoding and decoding with the read-back proof.
  - `decision_v5.rs`, `result_v5.rs`, `broker_v5.rs`, `legacy_v5.rs`, `codec_v5.rs`,
    `trigger_v5.rs`, `kernel_v5.rs`: the V5 result contract, Broker outcomes, the binding of a
    V5 owner trigger to the owner projection, the legacy whole-contract shapes, and the V5
    result codec.
  - `decision_v6.rs` and the `*_v6.rs` modules: the V6 context and result checks, checkpoints
    and the runner section, identities, the state fence, plan rows, the result codec and its
    read-back, and order update evidence.
  - `laws.rs`: properties that relate several operations (round trips, sealed checkpoints,
    what an accepted decision keeps).
- `tests/` — tests of the library on concrete values.
- `app/` — the parts that stay outside the verified library: bincode's allocation-limited
  re-decode of an encoded V6 result, and the floating-point average-price projections.

## What is not here, and why

- The V5 decision context (`DecisionContextV5`) and everything that takes one: its validation,
  codecs and digests, the continuation commitment, and validating a V5 result against its
  context. The context holds the supplied provider inputs, the current weather and forecast
  issuance sets, the current inputs, their retained encoding and the Broker replay, and its
  validation checks all of them first; the definitions of those parts are not part of this
  source tree, so no model of the context would accept and refuse what the full one does.
- In V6, the same supplied, current weather, forecast issuance and current input parts of the
  context, and with them the context's codec and digest. A captured weather trigger, whose
  binding needs the originating weather packet, is always refused here.
- The V5 kernel runtime: it drives the separate kernel crate, which is not available.
- bincode's allocation-limit accounting: a limited bincode decoder charges each container its
  length times the in-memory size of its item type. That size depends on how the compiler lays
  the types out, so the library's encoders and decoders do not apply it; `app/` re-decodes an
  encoded V6 result under bincode's limit.
