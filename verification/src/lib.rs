//! Commands from humans to a team of agents, and the chat channels that they
//! come through.
pub mod channels;
pub mod command_executor;
pub mod command_laws;
pub mod json;
pub mod messages;
pub mod react_loop;
pub mod state;
pub mod text;
pub mod text_laws;
