pub mod commands;
pub mod errors;
pub mod forms;
pub mod parameters;
pub mod responses;
