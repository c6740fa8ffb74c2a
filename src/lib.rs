pub mod agent;
pub mod command_line;
pub mod general;
pub mod laws;
pub mod llm;
pub mod loader;
pub mod routes;
