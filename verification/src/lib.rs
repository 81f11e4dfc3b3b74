//! Provisioning of a new upstream model channel on an LLM gateway, together
//! with the read-modify-write synchronization of the gateway's two shared
//! pricing tables (`CompletionRatio` and `ModelRatio`).
//!
//! The library holds the verified logic: exact decimal price arithmetic, the
//! channel descriptor builder, JSON object serialization, the ratio-table
//! merge, and the orchestration state machine. The caller performs the HTTP
//! transport and feeds responses back as events.

pub mod descriptor;
pub mod fetch;
pub mod merge;
pub mod num;
pub mod run;
pub mod table;
pub mod text;
