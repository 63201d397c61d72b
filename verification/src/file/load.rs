use vstd::prelude::*;

use crate::checker::error::ParseError;
use crate::checker::filetype::{get_file_type, spec_file_type_error, BinaryInfo};

verus! {

/// A file loaded for inspection: its contents, the format detected in
/// them, its name and its size in bytes.
pub struct Sh0k0h3xFile {
    pub file_buffer: Vec<u8>,
    pub file_type: BinaryInfo,
    pub file_name: String,
    pub file_size: usize,
}

impl Sh0k0h3xFile {
    /// Builds the record of a file from its contents and its name. The
    /// format of the contents must be detected; the error of detection is
    /// returned as it is otherwise. Since detection reports an error for
    /// every input, so does this.
    pub fn from_bytes(file_buffer: Vec<u8>, file_name: String) -> (res: Result<Sh0k0h3xFile, ParseError>)
        requires
            file_buffer@.len() <= isize::MAX,
        ensures
            res matches Err(e) && e == spec_file_type_error(file_buffer@),
    {
        let file_type = match get_file_type(&file_buffer) {
            Ok(t) => t,
            Err(e) => return Err(e),
        };
        let file_size = file_buffer.len();
        Ok(Sh0k0h3xFile { file_buffer, file_type, file_name, file_size })
    }
}

} // verus!
