//! A browser for the buckets, prefixes and objects of an object store: the
//! navigation state behind the screen, and the decisions taken on each key
//! press and each listing that arrives. Beside it stands a smaller browser
//! for the tables of a data catalogue, built on the same list and keys.

pub mod frontend;
pub mod glue;
pub mod s3;
pub mod stateful_list;
pub mod text;

pub use crate::frontend::{EventAction, FrontendEvent, KeyCode, KeyEvent, KeyModifiers, TerminalEvent};
pub use crate::s3::{S3Item, S3ItemType};
pub use crate::stateful_list::StatefulList;
