pub mod commands;
pub mod converters;
