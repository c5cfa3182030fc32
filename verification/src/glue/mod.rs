//! The catalogue browser: a flat list of tables, and the columns of the
//! selected one.

pub mod client;
pub mod controller;
pub mod view_model;

pub use self::client::GlueTable;
pub use self::view_model::ViewModel;
