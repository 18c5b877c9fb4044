pub mod currencies_handlers;
