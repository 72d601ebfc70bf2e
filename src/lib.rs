//! Decoding of game replay files: the binary envelope, the chunks it frames, and the
//! typed battle documents those chunks carry.
pub mod codec;
pub mod dictionaries;
pub mod envelope;
pub mod extract;
pub mod models;
pub mod selection;
pub mod timestamp;

pub use envelope::read_raw;
pub use extract::read_and_parse;
