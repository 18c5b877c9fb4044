pub mod writer_command;
