//! Configuration of the application.

pub mod schema;

pub use schema::Config;
