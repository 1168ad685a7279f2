//! The task definition registration that is sent to Amazon ECS, held as plain
//! values, and the ECS model's parsing of enumerated names.
use crate::keyed_map::KeyedMap;
use aws_sdk_ecs::model as ecs_model;
use aws_sdk_ecs::model::LogDriver as L;
use vstd::prelude::*;

verus! {

/// The network mode of a task.
#[derive(Debug, PartialEq, Eq)]
pub enum NetworkMode {
    Awsvpc,
    Bridge,
    Host,
    /// The `none` mode: the task has no external network connectivity.
    NoNetwork,
    /// A name that the ECS model does not know, passed on as it is.
    Unknown(String),
}

/// A launch type that a task definition is validated against.
#[derive(Debug, PartialEq, Eq)]
pub enum Compatibility {
    Ec2,
    External,
    Fargate,
    /// A name that the ECS model does not know, passed on as it is.
    Unknown(String),
}

/// A log driver of a container.
#[derive(Debug, PartialEq, Eq)]
pub enum LogDriver {
    Awsfirelens,
    Awslogs,
    Fluentd,
    Gelf,
    Journald,
    JsonFile,
    Splunk,
    Syslog,
    /// A name that the ECS model does not know, passed on as it is.
    Unknown(String),
}

/// Whether `mode` is what the ECS model reads from the name `name`.
pub open spec fn network_mode_named(name: Seq<char>, mode: NetworkMode) -> bool {
    if name == "awsvpc"@ {
        mode is Awsvpc
    } else if name == "bridge"@ {
        mode is Bridge
    } else if name == "host"@ {
        mode is Host
    } else if name == "none"@ {
        mode is NoNetwork
    } else {
        mode matches NetworkMode::Unknown(s) && s@ == name
    }
}

/// Whether `c` is what the ECS model reads from the name `name`.
pub open spec fn compatibility_named(name: Seq<char>, c: Compatibility) -> bool {
    if name == "EC2"@ {
        c is Ec2
    } else if name == "EXTERNAL"@ {
        c is External
    } else if name == "FARGATE"@ {
        c is Fargate
    } else {
        c matches Compatibility::Unknown(s) && s@ == name
    }
}

/// Whether `d` is what the ECS model reads from the name `name`.
pub open spec fn log_driver_named(name: Seq<char>, d: LogDriver) -> bool {
    if name == "awsfirelens"@ {
        d is Awsfirelens
    } else if name == "awslogs"@ {
        d is Awslogs
    } else if name == "fluentd"@ {
        d is Fluentd
    } else if name == "gelf"@ {
        d is Gelf
    } else if name == "journald"@ {
        d is Journald
    } else if name == "json-file"@ {
        d is JsonFile
    } else if name == "splunk"@ {
        d is Splunk
    } else if name == "syslog"@ {
        d is Syslog
    } else {
        d matches LogDriver::Unknown(s) && s@ == name
    }
}

/// The name under which ECS registers a network mode.
pub open spec fn network_mode_name(mode: NetworkMode) -> Seq<char> {
    match mode {
        NetworkMode::Awsvpc => "awsvpc"@,
        NetworkMode::Bridge => "bridge"@,
        NetworkMode::Host => "host"@,
        NetworkMode::NoNetwork => "none"@,
        NetworkMode::Unknown(s) => s@,
    }
}

/// The name under which ECS registers a compatibility.
pub open spec fn compatibility_name(c: Compatibility) -> Seq<char> {
    match c {
        Compatibility::Ec2 => "EC2"@,
        Compatibility::External => "EXTERNAL"@,
        Compatibility::Fargate => "FARGATE"@,
        Compatibility::Unknown(s) => s@,
    }
}

/// The name under which ECS registers a log driver.
pub open spec fn log_driver_name(d: LogDriver) -> Seq<char> {
    match d {
        LogDriver::Awsfirelens => "awsfirelens"@,
        LogDriver::Awslogs => "awslogs"@,
        LogDriver::Fluentd => "fluentd"@,
        LogDriver::Gelf => "gelf"@,
        LogDriver::Journald => "journald"@,
        LogDriver::JsonFile => "json-file"@,
        LogDriver::Splunk => "splunk"@,
        LogDriver::Syslog => "syslog"@,
        LogDriver::Unknown(s) => s@,
    }
}

/// Whatever network mode name a definition gives, ECS registers that same name.
pub proof fn lemma_network_mode_keeps_name(name: Seq<char>, mode: NetworkMode)
    requires
        network_mode_named(name, mode),
    ensures
        network_mode_name(mode) == name,
{
}

/// Whatever compatibility name a definition gives, ECS registers that same name.
pub proof fn lemma_compatibility_keeps_name(name: Seq<char>, c: Compatibility)
    requires
        compatibility_named(name, c),
    ensures
        compatibility_name(c) == name,
{
}

/// Whatever log driver name a definition gives, ECS registers that same name.
pub proof fn lemma_log_driver_keeps_name(name: Seq<char>, d: LogDriver)
    requires
        log_driver_named(name, d),
    ensures
        log_driver_name(d) == name,
{
}

/// Reads a network mode with `<aws_sdk_ecs::model::NetworkMode as FromStr>::from_str`.
/// In the ECS model that call never fails: it maps the four names it knows to
/// their variants and keeps any other name as `Unknown`. The contract states
/// that mapping.
#[verifier::external_body]
pub(crate) fn parse_network_mode(name: &str) -> (mode: NetworkMode)
    ensures
        network_mode_named(name@, mode),
{
    match <ecs_model::NetworkMode as std::str::FromStr>::from_str(name) {
        Ok(ecs_model::NetworkMode::Awsvpc) => NetworkMode::Awsvpc,
        Ok(ecs_model::NetworkMode::Bridge) => NetworkMode::Bridge,
        Ok(ecs_model::NetworkMode::Host) => NetworkMode::Host,
        Ok(ecs_model::NetworkMode::None) => NetworkMode::NoNetwork,
        Ok(ecs_model::NetworkMode::Unknown(s)) => NetworkMode::Unknown(s),
        Ok(other) => NetworkMode::Unknown(other.as_str().to_string()),
        Err(never) => match never {},
    }
}

/// Reads a compatibility with `<aws_sdk_ecs::model::Compatibility as FromStr>::from_str`.
/// In the ECS model that call never fails: it maps the three names it knows to
/// their variants and keeps any other name as `Unknown`. The contract states
/// that mapping.
#[verifier::external_body]
pub(crate) fn parse_compatibility(name: &str) -> (c: Compatibility)
    ensures
        compatibility_named(name@, c),
{
    match <ecs_model::Compatibility as std::str::FromStr>::from_str(name) {
        Ok(ecs_model::Compatibility::Ec2) => Compatibility::Ec2,
        Ok(ecs_model::Compatibility::External) => Compatibility::External,
        Ok(ecs_model::Compatibility::Fargate) => Compatibility::Fargate,
        Ok(ecs_model::Compatibility::Unknown(s)) => Compatibility::Unknown(s),
        Ok(other) => Compatibility::Unknown(other.as_str().to_string()),
        Err(never) => match never {},
    }
}

/// Reads a log driver with `<aws_sdk_ecs::model::LogDriver as FromStr>::from_str`.
/// In the ECS model that call never fails: it maps the eight names it knows to
/// their variants and keeps any other name as `Unknown`. The contract states
/// that mapping.
#[verifier::external_body]
pub(crate) fn parse_log_driver(name: &str) -> (d: LogDriver)
    ensures
        log_driver_named(name@, d),
{
    match <L as std::str::FromStr>::from_str(name) {
        Ok(L::Awsfirelens) => LogDriver::Awsfirelens,
        Ok(L::Awslogs) => LogDriver::Awslogs,
        Ok(L::Fluentd) => LogDriver::Fluentd,
        Ok(L::Gelf) => LogDriver::Gelf,
        Ok(L::Journald) => LogDriver::Journald,
        Ok(L::JsonFile) => LogDriver::JsonFile,
        Ok(L::Splunk) => LogDriver::Splunk,
        Ok(L::Syslog) => LogDriver::Syslog,
        Ok(L::Unknown(s)) => LogDriver::Unknown(s),
        Ok(other) => LogDriver::Unknown(other.as_str().to_string()),
        Err(never) => match never {},
    }
}

/// The log configuration of a container.
#[derive(Debug)]
pub struct ContainerLogConfiguration {
    pub log_driver: LogDriver,
    pub options: KeyedMap<String>,
}

/// A container of a task definition.
#[derive(Debug)]
pub struct ContainerDefinition {
    pub name: String,
    pub image: String,
    pub log_configuration: Option<ContainerLogConfiguration>,
}

impl ContainerDefinition {
    /// A container with a name and an image and nothing else set.
    pub fn new(name: String, image: String) -> (c: Self)
        ensures
            c.name@ == name@,
            c.image@ == image@,
            c.log_configuration is None,
    {
        ContainerDefinition { name, image, log_configuration: None }
    }
}

/// A request to register a task definition.
#[derive(Debug)]
pub struct TaskDefinitionRequest {
    pub family: String,
    pub task_role_arn: Option<String>,
    pub execution_role_arn: Option<String>,
    pub network_mode: Option<NetworkMode>,
    pub cpu: Option<String>,
    pub memory: Option<String>,
    pub requires_compatibilities: Vec<Compatibility>,
    pub container_definitions: Vec<ContainerDefinition>,
}

} // verus!
