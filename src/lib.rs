//! Prompted console input: the decisions of a prompt, read and parse loop,
//! stated and proved, while the caller performs the reads and writes.

pub mod acquire;
pub mod aliases;
pub mod erro;
pub mod laws;
pub mod numeric;
pub mod reader;
pub mod text;

pub use acquire::{choose_bool, get_bool, get_input, get_string, ReadEvent, Step};
pub use aliases::{
    get_i128, get_i16, get_i32, get_i64, get_i8, get_isize, get_number, get_u128, get_u16,
    get_u32, get_u64, get_u8, get_usize,
};
pub use erro::{BoolParseError, InputError};
pub use numeric::Numeric;
pub use reader::{Command, Phase};
pub use text::trim_text;
