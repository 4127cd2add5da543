pub mod basic_agent;
