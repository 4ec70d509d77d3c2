//! The in-memory buffered stream: a source that already holds its whole
//! text.  It implements the owned-source traits, so the same six
//! operations apply to it as to a borrowed text.

use vstd::prelude::*;
use vstd::string::*;

use crate::aggregate::{lines_into_string, lines_into_vec_string};
use crate::lines::EndingPolicy;
use crate::traits::{
    LineSource, ReadError, ReadLinesIntoStringOnSelf, ReadLinesIntoStringWithClipOnSelf,
    ReadLinesIntoStringWithTrimOnSelf, ReadLinesIntoStringsOnSelf,
    ReadLinesIntoStringsWithClipOnSelf, ReadLinesIntoStringsWithTrimOnSelf,
};

verus! {

/// A buffered text stream held wholly in memory, ready to be split into
/// lines.  Reading it consumes it, as reading a real stream would.
pub struct BufferedStream {
    text: String,
}

impl View for BufferedStream {
    type V = Seq<char>;

    closed spec fn view(&self) -> Seq<char> {
        self.text@
    }
}

impl BufferedStream {
    /// Buffer the whole of `text` as a stream.
    pub fn new(text: String) -> (r: BufferedStream)
        ensures
            r@ == text@,
    {
        BufferedStream { text }
    }

    /// The buffered text.
    pub fn as_text(&self) -> (r: &str)
        ensures
            r@ == self@,
    {
        self.text.as_str()
    }
}

impl LineSource for BufferedStream {
    open spec fn source_text(&self) -> Seq<char> {
        self@
    }
}

impl ReadLinesIntoStringOnSelf for BufferedStream {
    fn read_lines_into_string(self) -> (r: Result<String, ReadError>) {
        Ok(lines_into_string(self.text.as_str(), EndingPolicy::Keep))
    }
}

impl ReadLinesIntoStringWithClipOnSelf for BufferedStream {
    fn read_lines_into_string_with_clip(self) -> (r: Result<String, ReadError>) {
        Ok(lines_into_string(self.text.as_str(), EndingPolicy::Clip))
    }
}

impl ReadLinesIntoStringWithTrimOnSelf for BufferedStream {
    fn read_lines_into_string_with_trim(self) -> (r: Result<String, ReadError>) {
        Ok(lines_into_string(self.text.as_str(), EndingPolicy::Trim))
    }
}

impl ReadLinesIntoStringsOnSelf for BufferedStream {
    fn read_lines_into_vec_string(self) -> (r: Result<Vec<String>, ReadError>) {
        Ok(lines_into_vec_string(self.text.as_str(), EndingPolicy::Keep))
    }
}

impl ReadLinesIntoStringsWithClipOnSelf for BufferedStream {
    fn read_lines_into_vec_string_with_clip(self) -> (r: Result<Vec<String>, ReadError>) {
        Ok(lines_into_vec_string(self.text.as_str(), EndingPolicy::Clip))
    }
}

impl ReadLinesIntoStringsWithTrimOnSelf for BufferedStream {
    fn read_lines_into_vec_string_with_trim(self) -> (r: Result<Vec<String>, ReadError>) {
        Ok(lines_into_vec_string(self.text.as_str(), EndingPolicy::Trim))
    }
}

} // verus!
