use cargo_wrap::split::{is_separator, parse_invocation, split_args};
use cargo_wrap::error::WrapError;

fn strings(v: &[&str]) -> Vec<String> {
    v.iter().map(|s| s.to_string()).collect()
}

#[test]
fn one_separator_splits_at_its_position() {
    let p = split_args(&strings(&["--flag", "-x", "::", "check", "--release"]));
    assert_eq!(p.tool_args, strings(&["--flag", "-x"]));
    assert_eq!(p.build_args, strings(&["check", "--release"]));
}

#[test]
fn separator_first_gives_no_tool_args() {
    let p = split_args(&strings(&["::", "build"]));
    assert!(p.tool_args.is_empty());
    assert_eq!(p.build_args, strings(&["build"]));
}

#[test]
fn separator_last_gives_no_build_args() {
    let p = split_args(&strings(&["--flag", "::"]));
    assert_eq!(p.tool_args, strings(&["--flag"]));
    assert!(p.build_args.is_empty());
}

#[test]
fn no_separator_sends_everything_to_build() {
    let p = split_args(&strings(&["check", "--all", ":", ":::"]));
    assert!(p.tool_args.is_empty());
    assert_eq!(p.build_args, strings(&["check", "--all", ":", ":::"]));
}

#[test]
fn empty_list_splits_into_two_empty_parts() {
    let p = split_args(&Vec::new());
    assert!(p.tool_args.is_empty());
    assert!(p.build_args.is_empty());
}

#[test]
fn second_separator_ends_build_args() {
    let a = strings(&["t", "::", "b1", "b2", "::", "dropped", "::", "also"]);
    let p = split_args(&a);
    assert_eq!(p.tool_args, strings(&["t"]));
    assert_eq!(p.build_args, strings(&["b1", "b2"]));
    let mut joined = p.tool_args.clone();
    joined.push("::".to_string());
    joined.extend(p.build_args.iter().cloned());
    let q = split_args(&joined);
    assert_eq!(q.tool_args, p.tool_args);
    assert_eq!(q.build_args, p.build_args);
}

#[test]
fn separator_token_is_matched_exactly() {
    assert!(is_separator(&"::".to_string()));
    assert!(!is_separator(&":".to_string()));
    assert!(!is_separator(&":::".to_string()));
    assert!(!is_separator(&" ::".to_string()));
    assert!(!is_separator(&"".to_string()));
}

#[test]
fn invocation_drops_caller_token() {
    let p = parse_invocation(&strings(&["id", "--flag", "::", "check"])).unwrap();
    assert_eq!(p.tool_args, strings(&["--flag"]));
    assert_eq!(p.build_args, strings(&["check"]));
}

#[test]
fn invocation_with_only_caller_token_is_empty() {
    let p = parse_invocation(&strings(&["id"])).unwrap();
    assert!(p.tool_args.is_empty());
    assert!(p.build_args.is_empty());
}

#[test]
fn invocation_without_caller_token_fails() {
    assert!(matches!(parse_invocation(&Vec::new()), Err(WrapError::Invocation)));
}
