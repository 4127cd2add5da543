pub mod agent_architect;
pub mod agent_backend;
pub mod agents_traits;
pub mod backend_laws;
