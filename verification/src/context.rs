//! The input of one run request.

use vstd::prelude::*;

verus! {

/// What the host hands over for one run: the code under the cursor at two
/// granularities, the filetype of the buffer and the directory under which
/// every backend keeps its files. The library only reads it.
#[derive(Debug, PartialEq, Eq)]
pub struct DataHolder {
    /// Identifier of the language of the buffer, as the host names it.
    pub filetype: String,
    /// Directory under which each backend has its own directory.
    pub work_dir: String,
    /// Text of the line under the cursor; may be empty.
    pub current_line: String,
    /// Text of the selected block; may be empty.
    pub current_bloc: String,
}

impl DataHolder {
    /// A request with every field empty, for the host to fill in.
    pub fn new() -> (data: DataHolder)
        ensures
            data.filetype@.len() == 0,
            data.work_dir@.len() == 0,
            data.current_line@.len() == 0,
            data.current_bloc@.len() == 0,
    {
        DataHolder {
            filetype: String::new(),
            work_dir: String::new(),
            current_line: String::new(),
            current_bloc: String::new(),
        }
    }
}

impl Clone for DataHolder {
    fn clone(&self) -> (copy: DataHolder)
        ensures
            copy == *self,
    {
        DataHolder {
            filetype: self.filetype.clone(),
            work_dir: self.work_dir.clone(),
            current_line: self.current_line.clone(),
            current_bloc: self.current_bloc.clone(),
        }
    }
}

impl Default for DataHolder {
    fn default() -> (data: DataHolder)
        ensures
            data.filetype@.len() == 0,
            data.work_dir@.len() == 0,
            data.current_line@.len() == 0,
            data.current_bloc@.len() == 0,
    {
        DataHolder::new()
    }
}

} // verus!
