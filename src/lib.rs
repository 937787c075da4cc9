//! Fetches crypto prices for a status bar: the configuration model, the
//! loader's decisions, the price request and the rendered line.
pub mod config;
pub mod price;
