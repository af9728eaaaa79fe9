//! Typestate: a file's state lives in its type.  A closed file can only
//! be opened; an open file can be read, written and closed.  Moving the
//! value makes the stale state unusable.

use vstd::prelude::*;

verus! {

/// A file that is closed: it can only be opened.
pub struct FileClosed {
    pub path: String,
}

/// A file that is open: it can be read, written and closed.
pub struct FileOpen {
    pub path: String,
    pub content: String,
}

impl FileClosed {
    pub fn new(path: &str) -> (f: FileClosed)
        ensures
            f.path@ == path@,
    {
        FileClosed { path: path.to_owned() }
    }

    /// Opens the file; the open file starts with empty content.
    pub fn open(self) -> (f: FileOpen)
        ensures
            f.path@ == self.path@,
            f.content@ == Seq::<char>::empty(),
    {
        FileOpen { path: self.path, content: String::new() }
    }
}

impl FileOpen {
    /// Reads the content.
    pub fn read(&self) -> (r: &str)
        ensures
            r@ == self.content@,
    {
        self.content.as_str()
    }

    /// Appends `data` to the content.
    pub fn write(&mut self, data: &str)
        ensures
            final(self).path == old(self).path,
            final(self).content@ == old(self).content@ + data@,
    {
        self.content.append(data);
    }

    /// Closes the file, dropping the content.
    pub fn close(self) -> (f: FileClosed)
        ensures
            f.path@ == self.path@,
    {
        FileClosed { path: self.path }
    }
}

} // verus!
