pub mod checker;
pub mod error;
pub mod filetype;
pub mod laws;
