//! Project model for an embedded-development workbench: boards, the
//! hardware system they form, the project that owns that system, the
//! build-tool invocations derived from it, and the ordered output channel
//! of background command runs.

pub mod board;
pub mod system;
pub mod commands;
pub mod project;
pub mod laws;
pub mod worker;
