use huber::plan::{expand_all, expand_valid};
use huber::template::{expand, is_valid};
use huber::text::{as_opt_str, chars_of, clone_opt_string, clone_opt_strings, clone_strings, str_eq};

#[test]
fn expands_every_placeholder() {
    assert_eq!(
        expand("https://example/gh-{version}-{os}-{arch}.tgz", "1.0.0", "linux", "x86_64"),
        Some("https://example/gh-1.0.0-linux-x86_64.tgz".to_string())
    );
}

#[test]
fn expands_repeated_and_adjacent_placeholders() {
    assert_eq!(expand("{version}{version}", "2", "o", "a"), Some("22".to_string()));
    assert_eq!(expand("{os}{arch}{version}", "v", "o", "a"), Some("oav".to_string()));
}

#[test]
fn plain_text_expands_to_itself() {
    assert_eq!(expand("", "1", "linux", "x86_64"), Some(String::new()));
    assert_eq!(expand("plain}text", "1", "linux", "x86_64"), Some("plain}text".to_string()));
    assert_eq!(expand("caf\u{e9} {os}", "1", "linux", "x86_64"), Some("caf\u{e9} linux".to_string()));
}

#[test]
fn unknown_placeholder_has_no_expansion() {
    assert_eq!(expand("a-{tag}", "1", "linux", "x86_64"), None);
    assert_eq!(expand("{", "1", "linux", "x86_64"), None);
    assert_eq!(expand("{version", "1", "linux", "x86_64"), None);
    assert_eq!(expand("{{version}}", "1", "linux", "x86_64"), None);
    assert_eq!(expand("x{Version}", "1", "linux", "x86_64"), None);
}

#[test]
fn validity_does_not_depend_on_values() {
    assert!(is_valid("gh-{version}-{os}-{arch}"));
    assert!(is_valid(""));
    assert!(!is_valid("gh-{release}"));
    assert!(!is_valid("trailing {"));
}

#[test]
fn expand_valid_skips_invalid_templates() {
    let ts = vec!["a-{version}".to_string(), "b-{nope}".to_string(), "c-{os}".to_string()];
    assert_eq!(
        expand_valid(&ts, "1", "linux", "x86_64"),
        vec!["a-1".to_string(), "c-linux".to_string()]
    );
    assert_eq!(expand_valid(&Vec::new(), "1", "linux", "x86_64"), Vec::<String>::new());
}

#[test]
fn expand_all_stops_at_the_first_invalid_template() {
    let ok = vec!["tar xf gh-{version}.tgz".to_string(), "ln -s gh {arch}".to_string()];
    assert_eq!(
        expand_all(&ok, "1", "linux", "x86_64"),
        Ok(vec!["tar xf gh-1.tgz".to_string(), "ln -s gh x86_64".to_string()])
    );
    let bad = vec!["a".to_string(), "b {x}".to_string(), "c {y}".to_string()];
    assert_eq!(expand_all(&bad, "1", "linux", "x86_64"), Err("b {x}".to_string()));
}

#[test]
fn string_helpers() {
    assert!(str_eq("linux", "linux"));
    assert!(!str_eq("linux", "linus"));
    assert!(!str_eq("linux", "linu"));
    assert!(str_eq("", ""));
    assert_eq!(chars_of("a\u{e9}b"), vec!['a', '\u{e9}', 'b']);
    assert_eq!(chars_of(""), Vec::<char>::new());
    assert_eq!(clone_opt_string(&Some("x".to_string())), Some("x".to_string()));
    assert_eq!(clone_opt_string(&None), None);
    let v = vec!["a".to_string(), "b".to_string()];
    assert_eq!(clone_strings(&v), v);
    assert_eq!(clone_opt_strings(&Some(v.clone())), Some(v));
    assert_eq!(clone_opt_strings(&None), None);
    assert_eq!(as_opt_str(&Some("x".to_string())), Some("x"));
    assert_eq!(as_opt_str(&None), None);
}
