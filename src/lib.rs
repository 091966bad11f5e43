pub mod command;
pub mod engine;
pub mod settings;
