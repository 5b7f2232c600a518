//! The terminfo database layer: the capability registry, a zero-copy view of
//! a compiled `terminfo(5)` file, an owned mutable mirror of one, and the
//! error kinds the layer reports.

pub mod errors;
pub mod fields;
pub mod laws;
pub mod strtab;
pub mod terminfo;
pub mod terminfobuf;

pub use errors::ArgType;
pub use errors::ErrorKind;
pub use fields::BooleanField;
pub use fields::NumericField;
pub use fields::StringField;
pub use fields::PREDEFINED_BOOLEANS_COUNT;
pub use fields::PREDEFINED_NUMERICS_COUNT;
pub use fields::PREDEFINED_STRINGS_COUNT;
pub use terminfo::TermInfo;
pub use terminfobuf::TermInfoBuf;
