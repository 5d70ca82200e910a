//! Find out how to type a character by querying libcangjie's database.

pub mod code;
pub mod engine;
pub mod radical;

pub use code::{CangjieCode, Codes, Radicals};
pub use engine::{CangjieVersion, CodeList, HowToTypeError, LibCangjieHowToType, NewError, OpenFailure};
pub use radical::CangjieRadical;
pub use rusqlite;
pub use smallvec;
