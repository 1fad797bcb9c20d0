//! A cooking book: ingredient lines read into name, preposition, quantity
//! and unit, and the answers of the service that keeps recipes and carts.
pub mod grammar;
pub mod ingredient_parser;
pub mod laws;
pub mod models;
pub mod number;
pub mod response;
pub mod round_trip;
pub mod router;
pub mod store;
