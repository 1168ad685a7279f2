use hako_server::definition::{
    App, ContainerAttributes, Definition, LogConfiguration, Scheduler, Sidecar,
};
use hako_server::deploy::{
    wrap, Code, DeployAction, DeployEvent, DeployOneshotResponse, DeployState,
    DeploymentServiceConfig, Status,
};
use hako_server::ecs::{Compatibility, ContainerDefinition, LogDriver, NetworkMode};
use hako_server::keyed_map::KeyedMap;
use hako_server::keys::current_object_body;
use hako_server::task_definition::{build_container_definition, build_oneshot_task_definition};

fn attributes(log: Option<LogConfiguration>) -> ContainerAttributes {
    ContainerAttributes {
        env: KeyedMap::new(),
        secrets: Vec::new(),
        port_mappings: Vec::new(),
        mount_points: Vec::new(),
        volumes_from: Vec::new(),
        log_configuration: log,
        health_check: None,
        ulimits: Vec::new(),
        extra_hosts: Vec::new(),
        linux_parameters: None,
        depends_on: Vec::new(),
        repository_credentials: None,
        docker_labels: KeyedMap::new(),
        cpu: 0,
        memory: None,
        memory_reservation: None,
        links: Vec::new(),
        essential: true,
        entry_point: None,
        command: None,
        user: None,
        privileged: false,
        readonly_root_filesystem: false,
        docker_security_options: Vec::new(),
        system_controls: Vec::new(),
    }
}

fn log(driver: &str) -> LogConfiguration {
    let mut options = KeyedMap::new();
    options.insert("awslogs-group".to_string(), "/ecs/web".to_string());
    options.insert("awslogs-region".to_string(), "ap-northeast-1".to_string());
    LogConfiguration { log_driver: driver.to_string(), options }
}

fn scheduler(network_mode: Option<&str>, compat: &[&str]) -> Scheduler {
    Scheduler {
        task_role_arn: Some("arn:aws:iam::1:role/task".to_string()),
        execution_role_arn: None,
        network_mode: network_mode.map(|s| s.to_string()),
        cpu: Some("256".to_string()),
        memory: None,
        requires_compatibilities: compat.iter().map(|s| s.to_string()).collect(),
    }
}

fn definition(tag: Option<&str>) -> Definition {
    let mut sidecars = KeyedMap::new();
    sidecars.insert(
        "front".to_string(),
        Sidecar { image_tag: "nginx:1.21".to_string(), attributes: attributes(None) },
    );
    sidecars.insert(
        "fluentbit".to_string(),
        Sidecar { image_tag: "fluent-bit:1".to_string(), attributes: attributes(Some(log("awsfirelens"))) },
    );
    Definition {
        app: App {
            image: "registry/web".to_string(),
            tag: tag.map(|s| s.to_string()),
            attributes: attributes(Some(log("awslogs"))),
        },
        sidecars,
        scheduler: scheduler(Some("awsvpc"), &["FARGATE", "EC2", "MARS"]),
    }
}

fn config() -> DeploymentServiceConfig {
    DeploymentServiceConfig { s3_bucket: "bucket".to_string(), s3_prefix: "hako".to_string() }
}

fn internal_message(action: DeployAction) -> String {
    match action {
        DeployAction::Reply(Err(Status { code: Code::Internal, message })) => message,
        other => panic!("not an internal error: {:?}", other),
    }
}

#[test]
fn task_definition_of_a_definition() {
    let r = build_oneshot_task_definition("web", &definition(Some("v1")));
    assert_eq!(r.family, "web");
    assert_eq!(r.task_role_arn.as_deref(), Some("arn:aws:iam::1:role/task"));
    assert_eq!(r.execution_role_arn, None);
    assert_eq!(r.cpu.as_deref(), Some("256"));
    assert_eq!(r.memory, None);
    assert_eq!(r.network_mode, Some(NetworkMode::Awsvpc));
    assert_eq!(
        r.requires_compatibilities,
        vec![Compatibility::Fargate, Compatibility::Ec2, Compatibility::Unknown("MARS".to_string())]
    );
    assert_eq!(r.container_definitions.len(), 3);
    let app = &r.container_definitions[0];
    assert_eq!(app.name, "app");
    assert_eq!(app.image, "registry/web:v1");
    let l = app.log_configuration.as_ref().unwrap();
    assert_eq!(l.log_driver, LogDriver::Awslogs);
    assert_eq!(l.options.len(), 2);
    assert_eq!(l.options.get("awslogs-group"), Some(&"/ecs/web".to_string()));
    assert_eq!(l.options.key_at(1), "awslogs-region");
    assert_eq!(r.container_definitions[1].name, "front");
    assert_eq!(r.container_definitions[1].image, "nginx:1.21");
    assert!(r.container_definitions[1].log_configuration.is_none());
    assert_eq!(r.container_definitions[2].name, "fluentbit");
    assert_eq!(r.container_definitions[2].image, "fluent-bit:1");
    assert_eq!(
        r.container_definitions[2].log_configuration.as_ref().unwrap().log_driver,
        LogDriver::Awsfirelens
    );
}

#[test]
fn untagged_image_runs_latest() {
    let r = build_oneshot_task_definition("web", &definition(None));
    assert_eq!(r.container_definitions[0].image, "registry/web:latest");
}

#[test]
fn names_the_ecs_model_does_not_know_are_kept() {
    let mut d = definition(None);
    d.scheduler = scheduler(Some("overlay"), &[]);
    d.app.attributes = attributes(Some(log("json-file")));
    let r = build_oneshot_task_definition("web", &d);
    assert_eq!(r.network_mode, Some(NetworkMode::Unknown("overlay".to_string())));
    assert!(r.requires_compatibilities.is_empty());
    assert_eq!(
        r.container_definitions[0].log_configuration.as_ref().unwrap().log_driver,
        LogDriver::JsonFile
    );
    d.scheduler = scheduler(None, &["EXTERNAL"]);
    d.app.attributes = attributes(Some(log("loki")));
    let r = build_oneshot_task_definition("web", &d);
    assert_eq!(r.network_mode, None);
    assert_eq!(r.requires_compatibilities, vec![Compatibility::External]);
    assert_eq!(
        r.container_definitions[0].log_configuration.as_ref().unwrap().log_driver,
        LogDriver::Unknown("loki".to_string())
    );
    for (name, mode) in [("bridge", NetworkMode::Bridge), ("host", NetworkMode::Host), ("none", NetworkMode::NoNetwork)] {
        d.scheduler = scheduler(Some(name), &[]);
        assert_eq!(build_oneshot_task_definition("web", &d).network_mode, Some(mode));
    }
}

#[test]
fn container_without_log_configuration_is_unchanged() {
    let c = ContainerDefinition::new("x".to_string(), "img".to_string());
    let c = build_container_definition(c, &attributes(None));
    assert_eq!(c.name, "x");
    assert_eq!(c.image, "img");
    assert!(c.log_configuration.is_none());
}

#[test]
fn wrap_keeps_answers_and_turns_failures_internal() {
    let ok: Result<Result<u32, Status>, String> = Ok(Ok(7));
    assert_eq!(wrap(ok).unwrap(), 7);
    let refused: Result<Result<u32, Status>, String> =
        Ok(Err(Status { code: Code::NotFound, message: "x".to_string() }));
    let s = wrap(refused).unwrap_err();
    assert_eq!(s.code, Code::NotFound);
    let failed: Result<Result<u32, Status>, String> = Err("boom".to_string());
    let s = wrap(failed).unwrap_err();
    assert_eq!(s.code, Code::Internal);
    assert_eq!(s.message, "boom");
}

#[test]
fn deployment_without_application_is_refused() {
    let (state, action) = DeployState::start(&config(), "");
    assert!(matches!(state, DeployState::Finished));
    match action {
        DeployAction::Reply(Err(s)) => {
            assert_eq!(s.code, Code::InvalidArgument);
            assert_eq!(s.message, "app_id must be present");
        }
        other => panic!("{:?}", other),
    }
}

#[test]
fn deployment_registers_the_published_definition() {
    let (state, action) = DeployState::start(&config(), "web");
    match &action {
        DeployAction::GetCurrentObject { bucket, key } => {
            assert_eq!(bucket, "bucket");
            assert_eq!(key, "hako/current");
        }
        other => panic!("{:?}", other),
    }
    let event = DeployEvent::CurrentObjectRead(current_object_body("abc123"));
    assert!(state.accepts(&event));
    let (state, action) = state.step(&config(), event);
    match &action {
        DeployAction::GetDefinition { bucket, key } => {
            assert_eq!(bucket, "bucket");
            assert_eq!(key, "hako/abc123/web.json");
        }
        other => panic!("{:?}", other),
    }
    assert!(!state.accepts(&DeployEvent::Registered("x".to_string())));
    let (state, action) = state.step(&config(), DeployEvent::DefinitionRead(definition(Some("v1"))));
    match &action {
        DeployAction::Register(r) => {
            assert_eq!(r.family, "web");
            assert_eq!(r.container_definitions.len(), 3);
        }
        other => panic!("{:?}", other),
    }
    let (state, action) = state.step(&config(), DeployEvent::Registered("arn:task/web:3".to_string()));
    assert!(matches!(state, DeployState::Finished));
    match action {
        DeployAction::Reply(Ok(DeployOneshotResponse { task_definition_arn })) => {
            assert_eq!(task_definition_arn, "arn:task/web:3")
        }
        other => panic!("{:?}", other),
    }
    assert!(!state.accepts(&DeployEvent::ObjectMissing));
}

fn at_definition() -> DeployState {
    let (state, _) = DeployState::start(&config(), "web");
    let (state, _) = state.step(&config(), DeployEvent::CurrentObjectRead(b"abc123\n".to_vec()));
    state
}

#[test]
fn missing_definition_is_not_found() {
    let (state, action) = at_definition().step(&config(), DeployEvent::ObjectMissing);
    assert!(matches!(state, DeployState::Finished));
    match action {
        DeployAction::Reply(Err(s)) => {
            assert_eq!(s.code, Code::NotFound);
            assert_eq!(s.message, "web is not registered");
        }
        other => panic!("{:?}", other),
    }
}

#[test]
fn failures_are_internal_errors() {
    let current = || DeployState::start(&config(), "web").0;
    let (_, a) = current().step(&config(), DeployEvent::GetObjectFailed);
    assert_eq!(internal_message(a), "failed to get current object s3://bucket/hako/current");
    let (_, a) = current().step(&config(), DeployEvent::ObjectMissing);
    assert_eq!(internal_message(a), "failed to get current object s3://bucket/hako/current");
    let (_, a) = current().step(&config(), DeployEvent::BodyReadFailed);
    assert_eq!(
        internal_message(a),
        "failed to read contents of current object s3://bucket/hako/current"
    );
    let (_, a) = current().step(&config(), DeployEvent::CurrentObjectRead(vec![0xc3, 0x28]));
    assert_eq!(
        internal_message(a),
        "failed to read contents of current object s3://bucket/hako/current as UTF-8"
    );
    let (_, a) = at_definition().step(&config(), DeployEvent::GetObjectFailed);
    assert_eq!(internal_message(a), "failed to get definition s3://bucket/hako/abc123/web.json");
    let (_, a) = at_definition().step(&config(), DeployEvent::BodyReadFailed);
    assert_eq!(
        internal_message(a),
        "failed to read contents of definition s3://bucket/hako/abc123/web.json"
    );
    let (_, a) = at_definition().step(&config(), DeployEvent::DefinitionMalformed);
    assert_eq!(
        internal_message(a),
        "failed to deserialize definition s3://bucket/hako/abc123/web.json"
    );
    let (registering, _) = at_definition().step(&config(), DeployEvent::DefinitionRead(definition(None)));
    let (state, a) = registering.step(&config(), DeployEvent::RegisterFailed);
    assert!(matches!(state, DeployState::Finished));
    assert_eq!(
        internal_message(a),
        "failed to register task definition from s3://bucket/hako/abc123/web.json"
    );
}
