//! Game logic of a survival game played by autonomous agents: the registry
//! that runs seasons and keeps every agent's record, and the per-agent
//! contract state that pulses, liquidates, withdraws and claims prizes.
pub mod ids;
pub mod rounds;
pub mod registry;
pub mod agent;
