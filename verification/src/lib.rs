pub mod flow;
pub mod runner;
pub mod stats;
pub mod store;
pub mod text;
pub mod tools;
