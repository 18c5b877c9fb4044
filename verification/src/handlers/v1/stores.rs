pub mod stores_handlers;
