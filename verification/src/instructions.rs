//! The two instructions of the registry proper: registering an agent and
//! rating one.

pub mod register_agent;
pub mod update_reputation;
