pub mod command_history;
pub mod command_queue;
pub mod command_service;
pub mod writer_actor;
