//! The capability traits through which every source exposes the six
//! read-lines operations, and the error values a failing source reports.
//!
//! Each trait carries one operation, for either an owned or a borrowed
//! source.  All of them promise the same thing: the result is the
//! source's text, split into raw lines and folded under one ending
//! policy.  A borrowed in-memory text implements the borrowed-source
//! traits here; the owned stream implements the owned-source ones.

use vstd::prelude::*;

use crate::aggregate::{lines_into_string, lines_into_vec_string};
use crate::lines::{joined_under_policy, lines_under_policy, EndingPolicy};

verus! {

/// Why a read failed: the resource could not be opened, or a read on an
/// already-open stream failed after opening succeeded.  The in-memory
/// sources of this crate never fail; adapters that open and read real
/// resources report their failures with these values.
#[derive(Clone, Copy, Debug, PartialEq, Eq, Structural)]
pub enum ReadError {
    /// The path or resource could not be opened.
    OpenFailure,
    /// A read on an already-open stream failed.
    IoFailure,
}

/// The one capability every line source shares: it holds a text.
pub trait LineSource {
    /// The complete text the source yields when read to its end.
    spec fn source_text(&self) -> Seq<char>;
}

/// Read lines into one `String`, keeping each line end; consumes the source.
pub trait ReadLinesIntoStringOnSelf: LineSource {
    /// Read lines into `String`; keep each line end `\n` or `\r\n`.
    fn read_lines_into_string(self) -> (r: Result<String, ReadError>)
        ensures
            r matches Ok(out) && out@ == joined_under_policy(
                EndingPolicy::Keep,
                self.source_text(),
            ),
    ;
}

/// Read lines into one `String`, keeping each line end; borrows the source.
pub trait ReadLinesIntoStringOnRefSelf: LineSource {
    /// Read lines into `String`; keep each line end `\n` or `\r\n`.
    fn read_lines_into_string(&self) -> (r: Result<String, ReadError>)
        ensures
            r matches Ok(out) && out@ == joined_under_policy(
                EndingPolicy::Keep,
                self.source_text(),
            ),
    ;
}

/// Read lines into one `String`, clipping each line end; consumes the source.
pub trait ReadLinesIntoStringWithClipOnSelf: LineSource {
    /// Read lines into `String`; clip each line end `\n` or `\r\n`.
    fn read_lines_into_string_with_clip(self) -> (r: Result<String, ReadError>)
        ensures
            r matches Ok(out) && out@ == joined_under_policy(
                EndingPolicy::Clip,
                self.source_text(),
            ),
    ;
}

/// Read lines into one `String`, clipping each line end; borrows the source.
pub trait ReadLinesIntoStringWithClipOnRefSelf: LineSource {
    /// Read lines into `String`; clip each line end `\n` or `\r\n`.
    fn read_lines_into_string_with_clip(&self) -> (r: Result<String, ReadError>)
        ensures
            r matches Ok(out) && out@ == joined_under_policy(
                EndingPolicy::Clip,
                self.source_text(),
            ),
    ;
}

/// Read lines into one `String`, trimming each line; consumes the source.
pub trait ReadLinesIntoStringWithTrimOnSelf: LineSource {
    /// Read lines into `String`; trim each line of whitespace.
    fn read_lines_into_string_with_trim(self) -> (r: Result<String, ReadError>)
        ensures
            r matches Ok(out) && out@ == joined_under_policy(
                EndingPolicy::Trim,
                self.source_text(),
            ),
    ;
}

/// Read lines into one `String`, trimming each line; borrows the source.
pub trait ReadLinesIntoStringWithTrimOnRefSelf: LineSource {
    /// Read lines into `String`; trim each line of whitespace.
    fn read_lines_into_string_with_trim(&self) -> (r: Result<String, ReadError>)
        ensures
            r matches Ok(out) && out@ == joined_under_policy(
                EndingPolicy::Trim,
                self.source_text(),
            ),
    ;
}

/// Read lines into a `Vec<String>`, keeping each line end; consumes the source.
pub trait ReadLinesIntoStringsOnSelf: LineSource {
    /// Read lines into `Vec<String>`; keep each line end `\n` or `\r\n`.
    fn read_lines_into_vec_string(self) -> (r: Result<Vec<String>, ReadError>)
        ensures
            r matches Ok(out) && out.deep_view() == lines_under_policy(
                EndingPolicy::Keep,
                self.source_text(),
            ),
    ;
}

/// Read lines into a `Vec<String>`, keeping each line end; borrows the source.
pub trait ReadLinesIntoStringsOnRefSelf: LineSource {
    /// Read lines into `Vec<String>`; keep each line end `\n` or `\r\n`.
    fn read_lines_into_vec_string(&self) -> (r: Result<Vec<String>, ReadError>)
        ensures
            r matches Ok(out) && out.deep_view() == lines_under_policy(
                EndingPolicy::Keep,
                self.source_text(),
            ),
    ;
}

/// Read lines into a `Vec<String>`, clipping each line end; consumes the source.
pub trait ReadLinesIntoStringsWithClipOnSelf: LineSource {
    /// Read lines into `Vec<String>`; clip each line end `\n` or `\r\n`.
    fn read_lines_into_vec_string_with_clip(self) -> (r: Result<Vec<String>, ReadError>)
        ensures
            r matches Ok(out) && out.deep_view() == lines_under_policy(
                EndingPolicy::Clip,
                self.source_text(),
            ),
    ;
}

/// Read lines into a `Vec<String>`, clipping each line end; borrows the source.
pub trait ReadLinesIntoStringsWithClipOnRefSelf: LineSource {
    /// Read lines into `Vec<String>`; clip each line end `\n` or `\r\n`.
    fn read_lines_into_vec_string_with_clip(&self) -> (r: Result<Vec<String>, ReadError>)
        ensures
            r matches Ok(out) && out.deep_view() == lines_under_policy(
                EndingPolicy::Clip,
                self.source_text(),
            ),
    ;
}

/// Read lines into a `Vec<String>`, trimming each line; consumes the source.
pub trait ReadLinesIntoStringsWithTrimOnSelf: LineSource {
    /// Read lines into `Vec<String>`; trim each line of whitespace.
    fn read_lines_into_vec_string_with_trim(self) -> (r: Result<Vec<String>, ReadError>)
        ensures
            r matches Ok(out) && out.deep_view() == lines_under_policy(
                EndingPolicy::Trim,
                self.source_text(),
            ),
    ;
}

/// Read lines into a `Vec<String>`, trimming each line; borrows the source.
pub trait ReadLinesIntoStringsWithTrimOnRefSelf: LineSource {
    /// Read lines into `Vec<String>`; trim each line of whitespace.
    fn read_lines_into_vec_string_with_trim(&self) -> (r: Result<Vec<String>, ReadError>)
        ensures
            r matches Ok(out) && out.deep_view() == lines_under_policy(
                EndingPolicy::Trim,
                self.source_text(),
            ),
    ;
}

impl LineSource for str {
    open spec fn source_text(&self) -> Seq<char> {
        self@
    }
}

impl ReadLinesIntoStringOnRefSelf for str {
    fn read_lines_into_string(&self) -> (r: Result<String, ReadError>) {
        Ok(lines_into_string(self, EndingPolicy::Keep))
    }
}

impl ReadLinesIntoStringWithClipOnRefSelf for str {
    fn read_lines_into_string_with_clip(&self) -> (r: Result<String, ReadError>) {
        Ok(lines_into_string(self, EndingPolicy::Clip))
    }
}

impl ReadLinesIntoStringWithTrimOnRefSelf for str {
    fn read_lines_into_string_with_trim(&self) -> (r: Result<String, ReadError>) {
        Ok(lines_into_string(self, EndingPolicy::Trim))
    }
}

impl ReadLinesIntoStringsOnRefSelf for str {
    fn read_lines_into_vec_string(&self) -> (r: Result<Vec<String>, ReadError>) {
        Ok(lines_into_vec_string(self, EndingPolicy::Keep))
    }
}

impl ReadLinesIntoStringsWithClipOnRefSelf for str {
    fn read_lines_into_vec_string_with_clip(&self) -> (r: Result<Vec<String>, ReadError>) {
        Ok(lines_into_vec_string(self, EndingPolicy::Clip))
    }
}

impl ReadLinesIntoStringsWithTrimOnRefSelf for str {
    fn read_lines_into_vec_string_with_trim(&self) -> (r: Result<Vec<String>, ReadError>) {
        Ok(lines_into_vec_string(self, EndingPolicy::Trim))
    }
}

} // verus!
