//! Verified core of the SAR drone gateway: URL building, LLM tool-plan parsing and
//! validation, drone parameter normalization, timing arithmetic, the recent-infer
//! log, and the orchestrator state machine that decides what the gateway does.

pub mod text;
pub mod config;
pub mod json;
pub mod types;
pub mod llm;
pub mod drone_params;
pub mod timing;
pub mod model_apply;
pub mod drone_apply;
pub mod orchestrator;
pub mod infer_log;
pub mod webrtc_ice;
pub mod server;
pub mod mcp_proxy;
pub mod eval;
pub mod llm_decision;
pub mod camera_stream;
pub mod logs_ws;
pub mod banner;
