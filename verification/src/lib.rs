//! Launch planning for attention kernels on an accelerator.
//!
//! The library decides, from plain descriptions of tensors and their device
//! storage, whether a native kernel may be launched and with which addresses and
//! counts. It never touches device memory itself.

pub mod arith;
pub mod flashinfer_overlay_fingerprint;
pub mod float_bits;
pub mod kv_cache_copy;
pub mod messages;
pub mod qk_rmsnorm_rope;
pub mod ragged_prefill;
pub mod sampler;
pub mod tensor;
pub mod text;
