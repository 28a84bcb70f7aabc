use railway_rs::errors::{created_status, ApiError};
use railway_rs::image::split_image_ref;
use railway_rs::models::{
    default_image_name, default_port, health, log_tail_arg, logs_response, stop_response,
};
use railway_rs::text::{
    concatenate, decimal_string, find_char, join_strings, pad_right_string, replace_char_string,
    starts_with, trim_start_char, trim_string,
};

#[test]
fn decimal_matches_to_string() {
    for n in [0u64, 7, 9, 10, 42, 100, 3000, 65535, 1_000_000, u64::MAX] {
        assert_eq!(decimal_string(n), n.to_string());
    }
}

#[test]
fn starts_with_agrees_with_std() {
    assert!(starts_with("PORT=8080", "PORT="));
    assert!(!starts_with("PORTS=1", "PORT="));
    assert!(!starts_with("POR", "PORT="));
    assert!(starts_with("", ""));
    assert!(starts_with("é-x", "é"));
}

#[test]
fn trim_start_char_removes_every_leading_slash() {
    assert_eq!(trim_start_char("/web", '/'), "web");
    assert_eq!(trim_start_char("//web/x", '/'), "web/x");
    assert_eq!(trim_start_char("web", '/'), "web");
    assert_eq!(trim_start_char("///", '/'), "");
    assert_eq!(trim_start_char("", '/'), "");
}

#[test]
fn replace_char_replaces_all() {
    assert_eq!(replace_char_string("railway-app:latest", ':', '-'), "railway-app-latest");
    assert_eq!(replace_char_string("a:b:c", ':', '-'), "a-b-c");
    assert_eq!(replace_char_string("plain", ':', '-'), "plain");
}

#[test]
fn pad_right_matches_format() {
    for (s, w) in [("abc", 14usize), ("CONTAINER ID", 14), ("a-very-long-container-name", 12), ("", 3)] {
        assert_eq!(pad_right_string(s, w), format!("{:<w$}", s, w = w));
    }
}

#[test]
fn join_matches_std() {
    let parts = vec!["a".to_string(), "b".to_string(), "c".to_string()];
    assert_eq!(join_strings(&parts, ", "), "a, b, c");
    assert_eq!(join_strings(&vec!["x".to_string()], ", "), "x");
    assert_eq!(join_strings(&Vec::new(), ", "), "");
}

#[test]
fn trim_matches_std() {
    for s in ["  nixpacks 1.29.0\n", "v", "", " \t\r\n", "\u{3000}x\u{2003}", "a b"] {
        assert_eq!(trim_string(s), s.trim());
    }
}

#[test]
fn find_char_and_concat() {
    assert_eq!(find_char("node:18", ':'), 4);
    assert_eq!(find_char("node", ':'), 4);
    assert_eq!(concatenate("PORT=", "3000"), "PORT=3000");
}

#[test]
fn image_reference_split() {
    assert_eq!(split_image_ref("node:18"), ("node".to_string(), "18".to_string()));
    assert_eq!(split_image_ref("nginx"), ("nginx".to_string(), "latest".to_string()));
    assert_eq!(
        split_image_ref("localhost:5000/app:v1"),
        ("localhost".to_string(), "5000/app:v1".to_string())
    );
    assert_eq!(split_image_ref("repo:"), ("repo".to_string(), "".to_string()));
}

#[test]
fn image_reference_round_trip() {
    for image in ["node:18", "a:b:c", "x:"] {
        let (repo, tag) = split_image_ref(image);
        assert_eq!(format!("{repo}:{tag}"), image);
        assert!(!repo.contains(':'));
    }
}

#[test]
fn request_defaults() {
    assert_eq!(default_image_name(), "railway-app:latest");
    assert_eq!(default_port(), 3000);
}

#[test]
fn health_answer() {
    let h = health("0.1.0");
    assert_eq!(h.status, "ok");
    assert_eq!(h.version, "0.1.0");
}

#[test]
fn stop_and_logs_answers() {
    let s = stop_response("abc".to_string());
    assert_eq!(s.id, "abc");
    assert_eq!(s.message, "Container stopped and removed");
    let l = logs_response("abc".to_string(), vec!["one".to_string(), "two".to_string()]);
    assert_eq!(l.container_id, "abc");
    assert_eq!(l.logs, vec!["one".to_string(), "two".to_string()]);
    assert_eq!(log_tail_arg(100), "100");
    assert_eq!(log_tail_arg(0), "0");
}

#[test]
fn api_errors() {
    let e = ApiError::not_found("no such container: x");
    assert_eq!(e.status, 404);
    assert_eq!(e.message, "container not found: no such container: x");
    let e = ApiError::list_failed("daemon down");
    assert_eq!(e.status, 500);
    assert_eq!(e.message, "failed to list containers: daemon down");
    let e = ApiError::logs_failed("eof");
    assert_eq!(e.status, 500);
    assert_eq!(e.message, "failed to read logs: eof");
    let e = ApiError::internal("failed to start container".to_string());
    assert_eq!(e.status, 500);
    assert_eq!(e.error_response().error, "failed to start container");
    assert_eq!(created_status(), 201);
}
