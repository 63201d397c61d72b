use vstd::prelude::*;

use crate::checker::error::ParseError;

verus! {

/// The binary container formats that detection can name.
#[derive(Debug, Clone, Copy, PartialEq, Eq)]
pub enum BinaryFormat {
    Pe,
    Elf,
}

/// Format detection that, for now, names every input a PE file.
pub fn get_file_type(bytes: &Vec<u8>) -> (res: Result<BinaryFormat, ParseError>)
    ensures
        res == Ok::<BinaryFormat, ParseError>(BinaryFormat::Pe),
{
    Ok(BinaryFormat::Pe)
}

} // verus!
