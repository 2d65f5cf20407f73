//! Flat textual import resolution: telling import lines apart and pulling
//! their quoted paths out.

use mus_uc_devtools::imports::extract_import_path;
use mus_uc_devtools::imports::is_import_line;

#[test]
fn import_lines_are_recognised() {
    assert!(is_import_line(b"@import \"x.css\";"));
    assert!(is_import_line(b"   @import url(\"x.css\");"));
    assert!(is_import_line(b"\t@import 'x.css';"));
    assert!(!is_import_line(b"body { color: red; }"));
    assert!(!is_import_line(b"  /* @ import */"));
    assert!(!is_import_line(b""));
    assert!(!is_import_line(b"@impor"));
}

#[test]
fn double_quoted_path_is_extracted() {
    assert_eq!(
        extract_import_path(b"@import \"theme/dark.css\";"),
        Some(b"theme/dark.css".to_vec())
    );
    assert_eq!(
        extract_import_path(b"@import url(\"a.css\");"),
        Some(b"a.css".to_vec())
    );
}

#[test]
fn single_quoted_path_is_extracted_when_no_double_quotes() {
    assert_eq!(extract_import_path(b"@import 'b.css';"), Some(b"b.css".to_vec()));
}

#[test]
fn double_quotes_win_over_single_quotes() {
    assert_eq!(
        extract_import_path(b"@import \"it's.css\";"),
        Some(b"it's.css".to_vec())
    );
}

#[test]
fn unclosed_quotes_fall_through() {
    // An unmatched double quote falls back to the single-quote form.
    assert_eq!(extract_import_path(b"@import \"open 'c.css'"), Some(b"c.css".to_vec()));
    assert_eq!(extract_import_path(b"@import url(x.css);"), None);
}
