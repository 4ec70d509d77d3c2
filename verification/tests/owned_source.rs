//! The six operations invoked through the owned-source traits on a
//! buffered stream, with the same texts as the borrowed-source tests.

use read_lines_into::source::BufferedStream;
use read_lines_into::traits::ReadLinesIntoStringOnSelf;
use read_lines_into::traits::ReadLinesIntoStringWithClipOnSelf;
use read_lines_into::traits::ReadLinesIntoStringWithTrimOnSelf;
use read_lines_into::traits::ReadLinesIntoStringsOnSelf;
use read_lines_into::traits::ReadLinesIntoStringsWithClipOnSelf;
use read_lines_into::traits::ReadLinesIntoStringsWithTrimOnSelf;

fn stream(text: &str) -> BufferedStream {
    BufferedStream::new(String::from(text))
}

#[test]
fn stream_read_lines_into_string_with_lf() {
    assert_eq!(
        stream("lorem\nipsum\n").read_lines_into_string().unwrap(),
        "lorem\nipsum\n"
    );
}

#[test]
fn stream_read_lines_into_string_with_crlf() {
    assert_eq!(
        stream("lorem\r\nipsum\r\n").read_lines_into_string().unwrap(),
        "lorem\r\nipsum\r\n"
    );
}

#[test]
fn stream_read_lines_into_string_with_indent() {
    assert_eq!(
        stream("    lorem\n    ipsum\n").read_lines_into_string().unwrap(),
        "    lorem\n    ipsum\n"
    );
}

#[test]
fn stream_read_lines_into_string_with_clip() {
    assert_eq!(
        stream("lorem\nipsum\n").read_lines_into_string_with_clip().unwrap(),
        "loremipsum"
    );
    assert_eq!(
        stream("lorem\r\nipsum\r\n").read_lines_into_string_with_clip().unwrap(),
        "loremipsum"
    );
    assert_eq!(
        stream("    lorem\n    ipsum\n").read_lines_into_string_with_clip().unwrap(),
        "    lorem    ipsum"
    );
}

#[test]
fn stream_read_lines_into_string_with_trim() {
    assert_eq!(
        stream("lorem\nipsum\n").read_lines_into_string_with_trim().unwrap(),
        "loremipsum"
    );
    assert_eq!(
        stream("lorem\r\nipsum\r\n").read_lines_into_string_with_trim().unwrap(),
        "loremipsum"
    );
    assert_eq!(
        stream("    lorem\n    ipsum\n").read_lines_into_string_with_trim().unwrap(),
        "loremipsum"
    );
}

#[test]
fn stream_read_lines_into_vec_string() {
    assert_eq!(
        stream("lorem\nipsum\n").read_lines_into_vec_string().unwrap(),
        vec![String::from("lorem\n"), String::from("ipsum\n")]
    );
    assert_eq!(
        stream("lorem\r\nipsum\r\n").read_lines_into_vec_string().unwrap(),
        vec![String::from("lorem\r\n"), String::from("ipsum\r\n")]
    );
    assert_eq!(
        stream("    lorem\n    ipsum\n").read_lines_into_vec_string().unwrap(),
        vec![String::from("    lorem\n"), String::from("    ipsum\n")]
    );
}

#[test]
fn stream_read_lines_into_vec_string_with_clip() {
    assert_eq!(
        stream("lorem\nipsum\n").read_lines_into_vec_string_with_clip().unwrap(),
        vec![String::from("lorem"), String::from("ipsum")]
    );
    assert_eq!(
        stream("lorem\r\nipsum\r\n").read_lines_into_vec_string_with_clip().unwrap(),
        vec![String::from("lorem"), String::from("ipsum")]
    );
    assert_eq!(
        stream("    lorem\n    ipsum\n").read_lines_into_vec_string_with_clip().unwrap(),
        vec![String::from("    lorem"), String::from("    ipsum")]
    );
}

#[test]
fn stream_read_lines_into_vec_string_with_trim() {
    assert_eq!(
        stream("lorem\nipsum\n").read_lines_into_vec_string_with_trim().unwrap(),
        vec![String::from("lorem"), String::from("ipsum")]
    );
    assert_eq!(
        stream("lorem\r\nipsum\r\n").read_lines_into_vec_string_with_trim().unwrap(),
        vec![String::from("lorem"), String::from("ipsum")]
    );
    assert_eq!(
        stream("    lorem\n    ipsum\n").read_lines_into_vec_string_with_trim().unwrap(),
        vec![String::from("lorem"), String::from("ipsum")]
    );
}

#[test]
fn stream_exposes_its_text() {
    let s = stream("lorem\nipsum\n");
    assert_eq!(s.as_text(), "lorem\nipsum\n");
}
