//! Validation, identity and framing rules of the strategy decision contracts (V4, V5, V6).
pub mod text;
pub mod digest;
pub mod wire;
pub mod wire_read;
pub mod decision_v4;
pub mod decision_v5;
pub mod result_v5;
pub mod broker_v5;
pub mod legacy_v5;
pub mod codec_v5;
pub mod decision_v6;
pub mod checkpoint_v6;
pub mod command_v6;
pub mod result_v6;
pub mod identity_v6;
pub mod context_v6;
pub mod trigger_v6;
pub mod trigger_v5;
pub mod plan_v6;
pub mod fence_v6;
pub mod answer_v6;
pub mod current_v6;
pub mod laws;
pub mod bindings;
pub mod kernel_v5;
pub mod codec_v6;
pub mod codec_v4;
pub mod read_v4;
pub mod read_v6;
pub mod result_read_v6;
pub mod result_view_v6;
