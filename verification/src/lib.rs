//! Decoder and text renderer for the exception tables that a PowerPC
//! compiler attaches to functions.
//!
//! A table holds header flags, a list of program-counter ranges, and a
//! chain of action records that say which destructors run and which catch
//! blocks apply while the stack unwinds. [`decode_extab`] reads a table from
//! its bytes; [`ExceptionTableData::to_string`] writes its report, with the
//! names of the destructors supplied by the caller in order of appearance.
//!
//! Every function is verified against a mathematical statement of what it
//! computes: `decoder::decoded` for decoding and `render::render` for the
//! report.

pub mod action;
pub mod decoder;
pub mod digits;
pub mod directive;
pub mod error;
pub mod mem_utils;
pub mod render;
pub mod table;

pub use crate::action::{ExAction, ExActionData, ExceptionAction};
pub use crate::decoder::{decode_extab, ExtabDecoder};
pub use crate::error::ExtabError;
pub use crate::table::{ExceptionTableData, PCAction};
pub use crate::mem_utils::{read_byte, read_uint16, read_uint32};
