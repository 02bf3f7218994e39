pub mod command;
pub mod outcome;
