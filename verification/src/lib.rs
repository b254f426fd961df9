//! Decides whether an agent may send a proposal to a receiving agent.
//!
//! An agent is allowed to send proposals to one white-listed agent, named by
//! the `white_list_agent` entry of the sender's metadata.

pub mod agent;
pub mod permission;
pub mod text;
