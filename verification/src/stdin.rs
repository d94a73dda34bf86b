//! Standard input of WASI programs read from a file.
use vstd::prelude::*;
use std::sync::Arc;

verus! {

/// A WASI stdin that reads a file from its start. The file is shared by
/// every stream opened on it.
pub struct FileStdinStream<F> {
    file: Arc<F>,
}

impl<F> FileStdinStream<F> {
    pub closed spec fn spec_file(&self) -> F {
        *self.file
    }

    pub fn new(file: F) -> (s: Self)
        ensures
            s.spec_file() == file,
    {
        FileStdinStream { file: Arc::new(file) }
    }

    /// The shared file that streams read from, starting at offset 0.
    pub fn file(&self) -> (f: &Arc<F>)
        ensures
            **f == self.spec_file(),
    {
        &self.file
    }

    /// Whether the stream is a terminal: a file never is.
    pub fn isatty(&self) -> (r: bool)
        ensures
            !r,
    {
        false
    }
}

} // verus!
