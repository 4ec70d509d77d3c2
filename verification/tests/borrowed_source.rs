//! The six operations invoked through the borrowed-source traits on an
//! in-memory text.

use read_lines_into::traits::ReadLinesIntoStringOnRefSelf;
use read_lines_into::traits::ReadLinesIntoStringWithClipOnRefSelf;
use read_lines_into::traits::ReadLinesIntoStringWithTrimOnRefSelf;
use read_lines_into::traits::ReadLinesIntoStringsOnRefSelf;
use read_lines_into::traits::ReadLinesIntoStringsWithClipOnRefSelf;
use read_lines_into::traits::ReadLinesIntoStringsWithTrimOnRefSelf;

#[test]
fn read_lines_into_string_with_lf() {
    let source = "lorem\nipsum\n";
    assert_eq!(source.read_lines_into_string().unwrap(), "lorem\nipsum\n");
}

#[test]
fn read_lines_into_string_with_crlf() {
    let source = "lorem\r\nipsum\r\n";
    assert_eq!(source.read_lines_into_string().unwrap(), "lorem\r\nipsum\r\n");
}

#[test]
fn read_lines_into_string_with_indent() {
    let source = "    lorem\n    ipsum\n";
    assert_eq!(source.read_lines_into_string().unwrap(), "    lorem\n    ipsum\n");
}

#[test]
fn read_lines_into_string_with_clip_with_lf() {
    let source = "lorem\nipsum\n";
    assert_eq!(source.read_lines_into_string_with_clip().unwrap(), "loremipsum");
}

#[test]
fn read_lines_into_string_with_clip_with_crlf() {
    let source = "lorem\r\nipsum\r\n";
    assert_eq!(source.read_lines_into_string_with_clip().unwrap(), "loremipsum");
}

#[test]
fn read_lines_into_string_with_clip_with_indent() {
    let source = "    lorem\n    ipsum\n";
    assert_eq!(source.read_lines_into_string_with_clip().unwrap(), "    lorem    ipsum");
}

#[test]
fn read_lines_into_string_with_trim_with_lf() {
    let source = "lorem\nipsum\n";
    assert_eq!(source.read_lines_into_string_with_trim().unwrap(), "loremipsum");
}

#[test]
fn read_lines_into_string_with_trim_with_crlf() {
    let source = "lorem\r\nipsum\r\n";
    assert_eq!(source.read_lines_into_string_with_trim().unwrap(), "loremipsum");
}

#[test]
fn read_lines_into_string_with_trim_with_indent() {
    let source = "    lorem\n    ipsum\n";
    assert_eq!(source.read_lines_into_string_with_trim().unwrap(), "loremipsum");
}

#[test]
fn read_lines_into_vec_string_with_lf() {
    let source = "lorem\nipsum\n";
    assert_eq!(
        source.read_lines_into_vec_string().unwrap(),
        vec![String::from("lorem\n"), String::from("ipsum\n")]
    );
}

#[test]
fn read_lines_into_vec_string_with_crlf() {
    let source = "lorem\r\nipsum\r\n";
    assert_eq!(
        source.read_lines_into_vec_string().unwrap(),
        vec![String::from("lorem\r\n"), String::from("ipsum\r\n")]
    );
}

#[test]
fn read_lines_into_vec_string_with_indent() {
    let source = "    lorem\n    ipsum\n";
    assert_eq!(
        source.read_lines_into_vec_string().unwrap(),
        vec![String::from("    lorem\n"), String::from("    ipsum\n")]
    );
}

#[test]
fn read_lines_into_vec_string_with_clip_with_lf() {
    let source = "lorem\nipsum\n";
    assert_eq!(
        source.read_lines_into_vec_string_with_clip().unwrap(),
        vec![String::from("lorem"), String::from("ipsum")]
    );
}

#[test]
fn read_lines_into_vec_string_with_clip_with_crlf() {
    let source = "lorem\r\nipsum\r\n";
    assert_eq!(
        source.read_lines_into_vec_string_with_clip().unwrap(),
        vec![String::from("lorem"), String::from("ipsum")]
    );
}

#[test]
fn read_lines_into_vec_string_with_clip_with_indent() {
    let source = "    lorem\n    ipsum\n";
    assert_eq!(
        source.read_lines_into_vec_string_with_clip().unwrap(),
        vec![String::from("    lorem"), String::from("    ipsum")]
    );
}

#[test]
fn read_lines_into_vec_string_with_trim_with_lf() {
    let source = "lorem\nipsum\n";
    assert_eq!(
        source.read_lines_into_vec_string_with_trim().unwrap(),
        vec![String::from("lorem"), String::from("ipsum")]
    );
}

#[test]
fn read_lines_into_vec_string_with_trim_with_crlf() {
    let source = "lorem\r\nipsum\r\n";
    assert_eq!(
        source.read_lines_into_vec_string_with_trim().unwrap(),
        vec![String::from("lorem"), String::from("ipsum")]
    );
}

#[test]
fn read_lines_into_vec_string_with_trim_with_indent() {
    let source = "    lorem\n    ipsum\n";
    assert_eq!(
        source.read_lines_into_vec_string_with_trim().unwrap(),
        vec![String::from("lorem"), String::from("ipsum")]
    );
}
