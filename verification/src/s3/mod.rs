//! The object-storage browser: its data, its navigation state and the
//! decisions of its controller.

pub mod client;
pub mod controller;
pub mod laws;
pub mod model;
pub mod rows;
pub mod view_model;

pub use self::client::BucketWithLocation;
pub use self::model::{CommonPrefix, Object, S3Item, S3ItemType, Timestamp};
