pub mod command;
pub mod parser;
