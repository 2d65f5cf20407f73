//! The escapers, exercised directly on bytes.

use mus_uc_devtools::escape::check_single_quote_safe;
use mus_uc_devtools::escape::push_dquote_escaped;
use mus_uc_devtools::escape::push_json_escaped;
use mus_uc_devtools::escape::push_template_escaped;

fn json_escape(s: &[u8]) -> Vec<u8> {
    let mut out = Vec::new();
    push_json_escaped(&mut out, s);
    out
}

fn template_escape(s: &[u8]) -> Vec<u8> {
    let mut out = Vec::new();
    push_template_escaped(&mut out, s);
    out
}

fn dquote_escape(s: &[u8]) -> Vec<u8> {
    let mut out = Vec::new();
    push_dquote_escaped(&mut out, s);
    out
}

#[test]
fn json_escaping_quotes_backslashes_and_controls() {
    assert_eq!(json_escape(b"plain"), b"plain".to_vec());
    assert_eq!(json_escape(b"a\"b"), b"a\\\"b".to_vec());
    assert_eq!(json_escape(b"a\\b"), b"a\\\\b".to_vec());
    assert_eq!(json_escape(b"a\nb"), b"a\\u000ab".to_vec());
    assert_eq!(json_escape(&[0x1F]), b"\\u001f".to_vec());
    assert_eq!(json_escape(&[0x7F]), vec![0x7F]);
}

#[test]
fn json_escaped_text_parses_back() {
    let raw = b"line1\nline2\t\"quoted\" \\slash\\ end";
    let mut quoted = vec![b'"'];
    quoted.extend_from_slice(&json_escape(raw));
    quoted.push(b'"');
    let parsed: serde_json::Value = serde_json::from_slice(&quoted).unwrap();
    assert_eq!(parsed.as_str().unwrap().as_bytes(), raw);
}

#[test]
fn template_escaping_neutralises_execution() {
    assert_eq!(template_escape(b"body{}"), b"body{}".to_vec());
    assert_eq!(template_escape(b"a`b"), b"a\\`b".to_vec());
    assert_eq!(template_escape(b"${x}"), b"\\${x}".to_vec());
    assert_eq!(template_escape(b"\\"), b"\\\\".to_vec());
}

#[test]
fn dquote_escaping_neutralises_quotes() {
    assert_eq!(dquote_escape(b"#a > b"), b"#a > b".to_vec());
    assert_eq!(dquote_escape(b"a\"b\\c"), b"a\\\"b\\\\c".to_vec());
}

#[test]
fn single_quote_safety() {
    assert!(check_single_quote_safe(b"sheet-42"));
    assert!(!check_single_quote_safe(b"a'b"));
    assert!(!check_single_quote_safe(b"a\\b"));
    assert!(!check_single_quote_safe(b"a\nb"));
}
