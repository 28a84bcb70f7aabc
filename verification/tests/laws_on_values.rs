use railway_rs::containers::table_lines;
use railway_rs::deploy::container_name;
use railway_rs::models::ContainerInfo;
use railway_rs::nixpacks::{build_env_vars, node_version_from_field};
use railway_rs::runner::{container_spec, list_filters, short_id_string, RunConfig};
use railway_rs::text::{decimal_string, pad_right_string, trim_start_char, trim_string};

#[test]
fn trimming_twice_is_trimming_once() {
    for s in ["  a b  ", "\n\tx\r\n", "", "   "] {
        let once = trim_string(s);
        assert_eq!(trim_string(&once), once);
        assert!(!once.starts_with(char::is_whitespace));
        assert!(!once.ends_with(char::is_whitespace));
    }
}

#[test]
fn shown_names_are_stable() {
    let once = trim_start_char("//name", '/');
    assert_eq!(trim_start_char(&once, '/'), once);
    assert!(!once.starts_with('/'));
    assert!("//name".ends_with(&once));
}

#[test]
fn decimal_reads_back() {
    for n in [0u64, 5, 10, 99, 100, 65535, 4_294_967_295] {
        let s = decimal_string(n);
        assert!(s.chars().all(|c| c.is_ascii_digit()));
        assert_eq!(s.parse::<u64>().unwrap(), n);
        assert!(n == 0 || !s.starts_with('0'));
    }
}

#[test]
fn container_names_have_no_colon() {
    for image in ["a:b", "x", "::", ""] {
        let name = container_name(image);
        assert!(name.starts_with("railway-"));
        assert!(!name.contains(':'));
        assert_eq!(name.chars().count(), image.chars().count() + 8);
    }
}

#[test]
fn short_id_is_a_prefix() {
    for id in ["0123456789abcdef0123", "abc", "", "\u{e9}\u{e9}\u{e9}\u{e9}\u{e9}\u{e9}\u{e9}"] {
        let s = short_id_string(id);
        assert!(id.starts_with(&s));
        assert_eq!(s.len(), id.len().min(12));
        assert_eq!(s, &id[..id.len().min(12)]);
    }
}

#[test]
fn padding_keeps_text_and_width() {
    let p = pad_right_string("web", 10);
    assert!(p.starts_with("web"));
    assert_eq!(p.len(), 10);
    assert!(p[3..].chars().all(|c| c == ' '));
    assert_eq!(pad_right_string("a-long-name", 4), "a-long-name");
}

#[test]
fn pinned_version_never_doubled() {
    let env = vec!["NIXPACKS_NODE_VERSION=18".to_string(), "A=1".to_string()];
    assert_eq!(build_env_vars(&env, &Some("22".to_string())), env);
    assert_eq!(build_env_vars(&env, &None), env);
}

#[test]
fn node_versions_are_digits() {
    for field in [None, Some("^14.2".to_string()), Some("x".to_string()), Some("18 || 20".to_string()), Some(".5".to_string())] {
        let v = node_version_from_field(field);
        assert!(!v.is_empty());
        assert!(v.chars().all(|c| c.is_ascii_digit()));
    }
}

#[test]
fn listing_filter_matches_started_label() {
    let spec = container_spec(&RunConfig {
        image: "i".to_string(),
        name: "n".to_string(),
        container_port: "1/tcp".to_string(),
        host_port: 1,
        env: Vec::new(),
    });
    let (key, value) = &spec.labels[0];
    assert_eq!(list_filters()[0].1[0], format!("{key}={value}"));
}

#[test]
fn table_columns_line_up() {
    let cs = vec![ContainerInfo {
        id: "abc".to_string(),
        name: "web".to_string(),
        image: "img".to_string(),
        state: "running".to_string(),
        status: "Up".to_string(),
    }];
    let lines = table_lines(&cs);
    assert_eq!(lines.len(), 2);
    let row = &lines[1];
    assert_eq!(&row[0..3], "abc");
    assert_eq!(&row[15..18], "web");
    assert_eq!(&row[46..49], "img");
    assert_eq!(&row[72..79], "running");
    assert_eq!(&row[85..], "Up");
}
