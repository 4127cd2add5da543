pub mod agents;
pub mod agents_basic;
pub mod agents_manager;
pub mod general;
