//! The typed core of a terminal session, free of I/O: the decoding of keys
//! and events, the styling of cells, and the session's life cycle.

pub mod event;
pub mod failure;
pub mod key;
pub mod style;
pub mod term;
pub mod wire;

pub use event::{translate, Event, RawEvent};
pub use failure::Failure;
pub use key::Key;
pub use style::{Color, Face};
pub use term::{Request, Term};
