pub mod audit;
pub mod cmdline;
pub mod elevation;
pub mod guard;
pub mod laws;
pub mod outcome;
pub mod policy;
pub mod prompts;
pub mod request;
pub mod resources;
pub mod text;
