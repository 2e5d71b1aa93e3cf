use dobby::manifest::{
    apply_app_defaults, AppSection, Manifest, PortSpec, RestartPolicy, Service, ServiceKind,
};

fn service(kind: ServiceKind) -> Service {
    Service {
        kind,
        artifact: None,
        exec_start: None,
        host: None,
        port: None,
        image: None,
        volumes: Vec::new(),
        package: None,
        ports: Vec::new(),
        depends: Vec::new(),
        env_from: Vec::new(),
        env: Vec::new(),
        memory: None,
        cpu_bits: None,
        restart: None,
    }
}

fn manifest(name: &str, repo: &str, services: Vec<(&str, Service)>) -> Manifest {
    Manifest {
        app: AppSection {
            name: name.to_string(),
            repo: repo.to_string(),
            trigger: None,
            interval: None,
        },
        container: None,
        environment: Vec::new(),
        services: services.into_iter().map(|(k, s)| (k.to_string(), s)).collect(),
        proxy: Vec::new(),
        health: Vec::new(),
        sandbox: Vec::new(),
    }
}

fn svc<'a>(m: &'a Manifest, name: &str) -> &'a Service {
    &m.services.iter().find(|(k, _)| k == name).unwrap().1
}

#[test]
fn port_spec_container_port_helper() {
    assert_eq!(PortSpec::Single(8080).container_port(), Some(8080));
    assert_eq!(
        PortSpec::Mapping("3001:3000".into()).container_port(),
        Some(3000),
    );
    assert_eq!(PortSpec::Mapping("bogus".into()).container_port(), None,);
}

#[test]
fn container_port_edge_cases() {
    assert_eq!(PortSpec::Mapping("9090".into()).container_port(), Some(9090));
    assert_eq!(PortSpec::Mapping("a:b:65535".into()).container_port(), Some(65535));
    assert_eq!(PortSpec::Mapping("1:65536".into()).container_port(), None);
    assert_eq!(PortSpec::Mapping("1:".into()).container_port(), None);
    assert_eq!(PortSpec::Mapping("1:+80".into()).container_port(), Some(80));
    assert_eq!(PortSpec::Mapping("1: 80".into()).container_port(), None);
}

#[test]
fn applies_binary_service_defaults() {
    let mut ports_svc = service(ServiceKind::Binary);
    ports_svc.ports = vec![PortSpec::Single(8080)];
    let mut m = manifest("myapp", "me/myapp", vec![("api", ports_svc)]);
    m.apply_defaults();
    let api = svc(&m, "api");
    assert_eq!(api.artifact.as_deref(), Some("api"));
    assert_eq!(api.exec_start.as_deref(), Some("/opt/myapp/api/current/api"),);
    assert_eq!(api.restart, Some(RestartPolicy::Always));
}

#[test]
fn apply_defaults_preserves_explicit_overrides() {
    let mut api = service(ServiceKind::Binary);
    api.ports = vec![PortSpec::Single(8080)];
    api.artifact = Some("api-bin".to_string());
    api.exec_start = Some("/custom/path".to_string());
    api.restart = Some(RestartPolicy::OnFailure);
    let mut m = manifest("myapp", "me/myapp", vec![("api", api)]);
    m.apply_defaults();
    let api = svc(&m, "api");
    assert_eq!(api.artifact.as_deref(), Some("api-bin"));
    assert_eq!(api.exec_start.as_deref(), Some("/custom/path"));
    assert_eq!(api.restart, Some(RestartPolicy::OnFailure));
}

#[test]
fn apply_defaults_skips_restart_for_external() {
    let mut db = service(ServiceKind::External);
    db.host = Some("postgres.dobby".to_string());
    db.port = Some(5432);
    let mut m = manifest("x", "a/b", vec![("db", db)]);
    m.apply_defaults();
    assert!(svc(&m, "db").restart.is_none());
    assert!(svc(&m, "db").artifact.is_none());
}

#[test]
fn exec_start_uses_artifact_override() {
    let mut api = service(ServiceKind::Binary);
    api.artifact = Some("server".to_string());
    let mut m = manifest("shop", "me/shop", vec![("api", api)]);
    m.apply_defaults();
    assert_eq!(
        svc(&m, "api").exec_start.as_deref(),
        Some("/opt/shop/api/current/server")
    );
}

#[test]
fn container_and_system_services_get_restart_always() {
    let mut m = manifest(
        "x",
        "a/b",
        vec![
            ("prom", service(ServiceKind::Container)),
            ("redis", service(ServiceKind::System)),
        ],
    );
    m.apply_defaults();
    for name in ["prom", "redis"] {
        let s = svc(&m, name);
        assert_eq!(s.restart, Some(RestartPolicy::Always));
        assert!(s.artifact.is_none());
        assert!(s.exec_start.is_none());
    }
}

#[test]
fn app_defaults_fill_trigger_and_interval_once() {
    let mut m = manifest("x", "a/b", vec![("api", service(ServiceKind::Binary))]);
    m.apply_defaults();
    assert_eq!(m.app.trigger.as_deref(), Some("release"));
    assert_eq!(m.app.interval.as_deref(), Some("5m"));
    let once = m.clone();
    m.apply_defaults();
    assert_eq!(m, once);

    let mut app = AppSection {
        name: "x".into(),
        repo: "a/b".into(),
        trigger: Some("branch:main".into()),
        interval: None,
    };
    apply_app_defaults(&mut app);
    assert_eq!(app.trigger.as_deref(), Some("branch:main"));
    assert_eq!(app.interval.as_deref(), Some("5m"));
}

#[test]
fn apply_defaults_keeps_service_order_and_other_tables() {
    let mut m = manifest(
        "x",
        "a/b",
        vec![("b", service(ServiceKind::Binary)), ("a", service(ServiceKind::External))],
    );
    m.environment.push(("RUST_LOG".to_string(), "info".to_string()));
    m.apply_defaults();
    assert_eq!(m.services[0].0, "b");
    assert_eq!(m.services[1].0, "a");
    assert_eq!(m.environment, vec![("RUST_LOG".to_string(), "info".to_string())]);
}
