//! Header inspection for binary executables: detection of the PE container
//! format and parsing of its DOS, COFF, Optional and Section headers, with
//! every read bounds-checked against the input buffer.

pub mod checker;
pub mod file;
pub mod imgui;
