use railway_rs::deploy::{
    build_config, container_name, container_port, deploy_build_config, deploy_response,
    run_config,
};
use railway_rs::models::DeployRequest;
use railway_rs::nixpacks::{
    any_starts_with, build_args, build_env_vars, build_outcome, check_source, ensure_port_env,
    major_version_string, needs_node_version, node_version_from_field,
    node_version_from_package_json, plan_args, plan_outcome, version_args, version_outcome,
    BuildConfig, NixpacksError,
};
use railway_rs::runner::{
    container_spec, list_filters, short_id_string, RunConfig, LABEL_MANAGED_BY,
    LABEL_MANAGED_BY_VALUE,
};

fn strings(v: &[&str]) -> Vec<String> {
    v.iter().map(|s| s.to_string()).collect()
}

#[test]
fn port_is_added_when_missing() {
    assert_eq!(ensure_port_env(strings(&["A=1"]), 8080), strings(&["A=1", "PORT=8080"]));
    assert_eq!(ensure_port_env(Vec::new(), 3000), strings(&["PORT=3000"]));
}

#[test]
fn user_port_is_kept() {
    let env = strings(&["PORT=5000", "B=2"]);
    assert_eq!(ensure_port_env(env.clone(), 8080), env);
    let env = strings(&["PORTS=1"]);
    assert_eq!(ensure_port_env(env, 1), strings(&["PORTS=1", "PORT=1"]));
}

#[test]
fn port_env_is_idempotent() {
    let once = ensure_port_env(strings(&["X=y"]), 4000);
    let twice = ensure_port_env(once.clone(), 9999);
    assert_eq!(once, twice);
}

#[test]
fn prefix_search() {
    assert!(any_starts_with(&strings(&["A=1", "NIXPACKS_NODE_VERSION=20"]), "NIXPACKS_NODE_VERSION="));
    assert!(!any_starts_with(&strings(&["A=1"]), "NIXPACKS_NODE_VERSION="));
    assert!(needs_node_version(&strings(&["A=1"])));
    assert!(!needs_node_version(&strings(&["NIXPACKS_NODE_VERSION=18"])));
}

fn sample_config() -> BuildConfig {
    BuildConfig {
        source: "./app".to_string(),
        image_name: "web:1".to_string(),
        env: strings(&["PORT=3000"]),
        pkgs: strings(&["ffmpeg", "git"]),
        build_cmd: Some("npm run build".to_string()),
        start_cmd: Some("npm start".to_string()),
    }
}

#[test]
fn full_build_command() {
    let args = build_args(&sample_config(), &Some("20".to_string()));
    assert_eq!(
        args,
        strings(&[
            "build", "./app", "--name", "web:1", "--env", "PORT=3000", "--env",
            "NIXPACKS_NODE_VERSION=20", "--pkgs", "ffmpeg", "git", "--build-cmd",
            "npm run build", "--start-cmd", "npm start",
        ])
    );
}

#[test]
fn minimal_build_command() {
    let cfg = BuildConfig {
        source: "src".to_string(),
        image_name: "img".to_string(),
        env: Vec::new(),
        pkgs: Vec::new(),
        build_cmd: None,
        start_cmd: None,
    };
    assert_eq!(build_args(&cfg, &None), strings(&["build", "src", "--name", "img"]));
}

#[test]
fn pinned_node_version_wins() {
    let mut cfg = sample_config();
    cfg.env = strings(&["NIXPACKS_NODE_VERSION=16"]);
    cfg.pkgs = Vec::new();
    cfg.build_cmd = None;
    cfg.start_cmd = None;
    assert_eq!(
        build_args(&cfg, &Some("22".to_string())),
        strings(&["build", "./app", "--name", "web:1", "--env", "NIXPACKS_NODE_VERSION=16"])
    );
    assert_eq!(build_env_vars(&cfg.env, &Some("22".to_string())), cfg.env);
}

#[test]
fn other_nixpacks_commands() {
    assert_eq!(version_args(), strings(&["--version"]));
    assert_eq!(plan_args(&"./app".to_string()), strings(&["plan", "./app"]));
}

#[test]
fn nixpacks_outcomes() {
    assert_eq!(version_outcome(true, String::new(), "nixpacks 1.29.0\n").ok().unwrap(), "nixpacks 1.29.0");
    let e = version_outcome(false, "exit status: 2".to_string(), "").err().unwrap();
    assert_eq!(e.message(), "`nixpacks --version` exited with exit status: 2");

    assert_eq!(plan_outcome(true, "plan".to_string(), String::new()).ok().unwrap(), "plan");
    let e = plan_outcome(false, String::new(), "boom".to_string()).err().unwrap();
    assert_eq!(e.message(), "nixpacks plan failed:\nboom");

    let cfg = sample_config();
    assert_eq!(build_outcome(true, String::new(), &cfg).ok().unwrap(), "web:1");
    let e = build_outcome(false, "exit status: 1".to_string(), &cfg).err().unwrap();
    assert_eq!(e.message(), "nixpacks build failed with exit status: 1");
    assert!(matches!(e, NixpacksError::BuildFailed { .. }));

    assert!(check_source(&"./app".to_string(), true).is_ok());
    let e = check_source(&"./nope".to_string(), false).err().unwrap();
    assert_eq!(e.message(), "source path does not exist: ./nope");
}

#[test]
fn major_version_extraction() {
    assert_eq!(major_version_string(">=18.0.0"), "18");
    assert_eq!(major_version_string("22"), "22");
    assert_eq!(major_version_string("^20.x"), "20");
    assert_eq!(major_version_string("v16"), "16");
    assert_eq!(major_version_string("18 || 20"), "18");
    assert_eq!(major_version_string(">= 14 < 19"), "14");
    assert_eq!(major_version_string("lts"), "");
    assert_eq!(major_version_string(".5"), "");
    assert_eq!(major_version_string("v.18"), "");
}

#[test]
fn node_version_from_lookup() {
    assert_eq!(node_version_from_field(None), "22");
    assert_eq!(node_version_from_field(Some(">=18.0.0".to_string())), "18");
    assert_eq!(node_version_from_field(Some("latest".to_string())), "22");
}

#[test]
fn node_version_from_manifest_text() {
    assert_eq!(node_version_from_package_json(r#"{"name":"x","engines":{"node":">=18.0.0"}}"#), "18");
    assert_eq!(node_version_from_package_json(r#"{"engines":{"node":"20.x"}}"#), "20");
    assert_eq!(node_version_from_package_json(r#"{"engines":{"node":"18 || 20"}}"#), "18");
    assert_eq!(node_version_from_package_json(r#"{"name":"x"}"#), "22");
    assert_eq!(node_version_from_package_json(r#"{"engines":{"node":18}}"#), "22");
    assert_eq!(node_version_from_package_json(r#"{"engines":{"node":"*"}}"#), "22");
    assert_eq!(node_version_from_package_json(r#"{"node":"16"}"#), "22");
    assert_eq!(node_version_from_package_json("{ not json"), "22");
    assert_eq!(node_version_from_package_json(""), "22");
    assert_eq!(node_version_from_package_json("[1, 2]"), "22");
}

#[test]
fn container_naming() {
    assert_eq!(container_name("railway-app:latest"), "railway-railway-app-latest");
    assert_eq!(container_name("web"), "railway-web");
    assert_eq!(container_port(3000), "3000/tcp");
}

#[test]
fn request_to_build_and_run() {
    let req = DeployRequest {
        source: "./app".to_string(),
        image_name: "shop:v2".to_string(),
        port: 8080,
        env: strings(&["A=1"]),
        pkgs: strings(&["git"]),
        build_cmd: None,
        start_cmd: Some("node server.js".to_string()),
    };
    let build = deploy_build_config(&req);
    assert_eq!(build.source, "./app");
    assert_eq!(build.image_name, "shop:v2");
    assert_eq!(build.env, strings(&["A=1", "PORT=8080"]));
    assert_eq!(build.pkgs, strings(&["git"]));
    assert_eq!(build.build_cmd, None);
    assert_eq!(build.start_cmd, Some("node server.js".to_string()));

    let run = run_config("shop:v2".to_string(), &req.image_name, req.port, build.env.clone());
    assert_eq!(run.image, "shop:v2");
    assert_eq!(run.name, "railway-shop-v2");
    assert_eq!(run.container_port, "8080/tcp");
    assert_eq!(run.host_port, 8080);
    assert_eq!(run.env, build.env);

    let resp = deploy_response("abc123".to_string(), "shop:v2".to_string(), 8080);
    assert_eq!(resp.container_id, "abc123");
    assert_eq!(resp.image, "shop:v2");
    assert_eq!(resp.host_port, 8080);
    assert_eq!(resp.message, "Container running on port 8080");
}

#[test]
fn command_line_build_config() {
    let cfg = build_config(
        "./site".to_string(),
        "site:latest".to_string(),
        strings(&["PORT=9000"]),
        3000,
        Vec::new(),
        None,
        None,
    );
    assert_eq!(cfg.env, strings(&["PORT=9000"]));
}

#[test]
fn container_creation_spec() {
    let cfg = RunConfig {
        image: "shop:v2".to_string(),
        name: "railway-shop-v2".to_string(),
        container_port: "8080/tcp".to_string(),
        host_port: 8080,
        env: strings(&["PORT=8080"]),
    };
    let spec = container_spec(&cfg);
    assert_eq!(spec.name, "railway-shop-v2");
    assert_eq!(spec.image, "shop:v2");
    assert_eq!(spec.env, strings(&["PORT=8080"]));
    assert_eq!(spec.exposed_ports, strings(&["8080/tcp"]));
    assert_eq!(spec.port_bindings.len(), 1);
    assert_eq!(spec.port_bindings[0].container_port, "8080/tcp");
    assert_eq!(spec.port_bindings[0].host_ip, "0.0.0.0");
    assert_eq!(spec.port_bindings[0].host_port, "8080");
    assert_eq!(spec.labels, vec![("managed-by".to_string(), "railway-rs".to_string())]);
    assert_eq!(LABEL_MANAGED_BY, "managed-by");
    assert_eq!(LABEL_MANAGED_BY_VALUE, "railway-rs");
}

#[test]
fn listing_filter() {
    let f = list_filters();
    assert_eq!(f, vec![("label".to_string(), strings(&["managed-by=railway-rs"]))]);
}

#[test]
fn short_ids() {
    assert_eq!(
        short_id_string("4f2a9c1d0e7b5a3c8d6e2f1a0b9c8d7e"),
        "4f2a9c1d0e7b"
    );
    assert_eq!(short_id_string("abc"), "abc");
    // Twelve bytes, as the byte slice of the command line shows them.
    assert_eq!(short_id_string(&"\u{e9}".repeat(13)), "\u{e9}".repeat(6));
    assert_eq!(short_id_string("0123456789\u{e9}xyz"), "0123456789\u{e9}");
}
