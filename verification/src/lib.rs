//! The generate → build → probe → repair pipeline that turns a website
//! request into server code: the data it threads through its stages, the
//! prompts it composes, and the decisions of each stage as state machines
//! whose steps a driver performs.

pub mod ai_functions;
pub mod helpers;
pub mod models;
pub mod web_template;
