# attention_rs

Launch planning for attention kernels on an accelerator, verified with Verus.

The library decides whether a native kernel may be launched, and with which addresses,
counts and scalars. It reads Candle tensors through plain descriptions and never touches
device memory.

- `src/tensor.rs`: descriptions of tensors and of the device memory behind them, and every
  call into Candle.
- `src/kv_cache_copy.rs`: the copy of one block in a pair of key and value caches.
- `src/qk_rmsnorm_rope.rs`: fused RMSNorm and rotary embedding of packed QKV rows, and the
  certificate for validated positions.
- `src/ragged_prefill.rs`: ragged prefill over checked cumulative lengths.
- `src/sampler.rs`: greedy selection and sampling of tokens.
- `src/flashinfer_overlay_fingerprint.rs`: the compiler argument that ties CUDA objects to
  the applied overlay.
- `src/arith.rs`, `src/float_bits.rs`, `src/text.rs`, `src/messages.rs`: checked products,
  single-precision numbers as bits, numbers as text, and what the errors say.

Proof functions whose names start with `law_` state what holds across functions.

`app/` reads storage and devices, launches the native kernels and reads the overlay file.
Single-precision parameters reach the library as their bits.
