//! Agent session routing: the message protocol, the provider turn machines, the
//! launcher and the onboarding rules, with their behaviour stated as contracts.

pub mod basic_laws;
pub mod bounded;
pub mod credentials;
pub mod digest;
pub mod fault_laws;
pub mod ids;
pub mod json;
pub mod mcp;
pub mod net;
pub mod onboarding;
pub mod paths;
pub mod process;
pub mod protocol;
pub mod providers;
pub mod shell;
pub mod tasks;
pub mod text;
