//! Resolution of IP addresses to geographic metadata and the two renderers
//! for that metadata: an aligned terminal table with a country-flag glyph,
//! and a compact `key:value` block appended to an output file.

pub mod dispatch;
pub mod file;
pub mod flag;
pub mod num;
pub mod record;
pub mod resolve;
pub mod table;
pub mod text;
