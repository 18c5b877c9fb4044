pub mod currencies;
pub mod reply;
pub mod stores;
