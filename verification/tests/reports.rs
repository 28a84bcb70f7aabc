use railway_rs::containers::{
    container_info_from_details, container_info_from_summary, container_infos, inspect_lines,
    ports_string, table_lines, ContainerDetails, ContainerSummary, HostBinding, PortEntry,
};
use railway_rs::models::ContainerInfo;

fn info(id: &str, name: &str, image: &str, state: &str, status: &str) -> ContainerInfo {
    ContainerInfo {
        id: id.to_string(),
        name: name.to_string(),
        image: image.to_string(),
        state: state.to_string(),
        status: status.to_string(),
    }
}

#[test]
fn summary_fields() {
    let s = ContainerSummary {
        id: Some("abc".to_string()),
        names: Some(vec!["/railway-web".to_string(), "/alias".to_string()]),
        image: Some("web:1".to_string()),
        state: Some("running".to_string()),
        status: Some("Up 2 minutes".to_string()),
    };
    let c = container_info_from_summary(&s);
    assert_eq!(c.id, "abc");
    assert_eq!(c.name, "railway-web");
    assert_eq!(c.image, "web:1");
    assert_eq!(c.state, "running");
    assert_eq!(c.status, "Up 2 minutes");

    let empty = ContainerSummary { id: None, names: Some(Vec::new()), image: None, state: None, status: None };
    let c = container_info_from_summary(&empty);
    assert_eq!((c.id, c.name, c.image, c.state, c.status), (String::new(), String::new(), String::new(), String::new(), String::new()));
    let all = container_infos(&vec![s, empty]);
    assert_eq!(all.len(), 2);
    assert_eq!(all[0].name, "railway-web");
    assert_eq!(all[1].name, "");
}

#[test]
fn details_fields() {
    let d = ContainerDetails {
        id: Some("abcdef".to_string()),
        name: Some("/railway-web".to_string()),
        image: Some("web:1".to_string()),
        status: Some("exited".to_string()),
        started_at: None,
        ports: None,
    };
    let c = container_info_from_details(&d);
    assert_eq!(c.id, "abcdef");
    assert_eq!(c.name, "railway-web");
    assert_eq!(c.image, "web:1");
    assert_eq!(c.state, "exited");
    assert_eq!(c.status, "exited");
}

#[test]
fn empty_table() {
    assert_eq!(table_lines(&Vec::new()), vec!["No containers found.".to_string()]);
}

#[test]
fn table_matches_format() {
    let cs = vec![
        info("0123456789abcdef", "railway-web", "web:1", "running", "Up 1 second"),
        info("xyz", "n", "i", "exited", "Exited (0)"),
    ];
    let lines = table_lines(&cs);
    assert_eq!(lines.len(), 3);
    assert_eq!(
        lines[0],
        format!("{:<14} {:<30} {:<25} {:<12} {}", "CONTAINER ID", "NAME", "IMAGE", "STATE", "STATUS")
    );
    assert_eq!(
        lines[1],
        format!("{:<14} {:<30} {:<25} {:<12} {}", "0123456789ab", "railway-web", "web:1", "running", "Up 1 second")
    );
    assert_eq!(
        lines[2],
        format!("{:<14} {:<30} {:<25} {:<12} {}", "xyz", "n", "i", "exited", "Exited (0)")
    );
}

#[test]
fn ports_text() {
    assert_eq!(ports_string(&None), "none");
    assert_eq!(ports_string(&Some(Vec::new())), "");
    let ports = Some(vec![
        PortEntry {
            port: "8080/tcp".to_string(),
            bindings: Some(vec![
                HostBinding { host_ip: Some("0.0.0.0".to_string()), host_port: Some("8080".to_string()) },
                HostBinding { host_ip: None, host_port: None },
            ]),
        },
        PortEntry { port: "9090/tcp".to_string(), bindings: None },
    ]);
    assert_eq!(
        ports_string(&ports),
        "8080/tcp \u{2192} 0.0.0.0:8080, 0.0.0.0:?\n         9090/tcp \u{2192} "
    );
}

#[test]
fn inspect_report_lines() {
    let d = ContainerDetails {
        id: Some("abcdef".to_string()),
        name: Some("/railway-web".to_string()),
        image: None,
        status: Some("running".to_string()),
        started_at: Some("2024-01-01T00:00:00Z".to_string()),
        ports: None,
    };
    assert_eq!(
        inspect_lines(&d),
        vec![
            "ID:      abcdef".to_string(),
            "Name:    railway-web".to_string(),
            "Image:   ".to_string(),
            "State:   running".to_string(),
            "Started: 2024-01-01T00:00:00Z".to_string(),
            "Ports:   none".to_string(),
        ]
    );
}
