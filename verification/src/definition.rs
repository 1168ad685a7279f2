//! The deployment definition of an application: its main container, its
//! sidecars and how the scheduler runs them.
use crate::keyed_map::KeyedMap;
use vstd::prelude::*;
use vstd::string::*;

verus! {

/// A deployment definition.
#[derive(Debug)]
pub struct Definition {
    pub app: App,
    /// Sidecar containers, by container name.
    pub sidecars: KeyedMap<Sidecar>,
    /// How the task is scheduled.
    pub scheduler: Scheduler,
}

/// Scheduling parameters of the task definition.
#[derive(Debug)]
pub struct Scheduler {
    pub task_role_arn: Option<String>,
    pub execution_role_arn: Option<String>,
    pub network_mode: Option<String>,
    pub cpu: Option<String>,
    pub memory: Option<String>,
    pub requires_compatibilities: Vec<String>,
}

/// The main container.
#[derive(Debug)]
pub struct App {
    pub image: String,
    pub tag: Option<String>,
    pub attributes: ContainerAttributes,
}

/// A sidecar container.
#[derive(Debug)]
pub struct Sidecar {
    pub image_tag: String,
    pub attributes: ContainerAttributes,
}

/// Attributes shared by the main container and the sidecars.
#[derive(Debug)]
pub struct ContainerAttributes {
    pub env: KeyedMap<String>,
    pub secrets: Vec<Secret>,
    pub port_mappings: Vec<PortMapping>,
    pub mount_points: Vec<MountPoint>,
    pub volumes_from: Vec<VolumeFrom>,
    pub log_configuration: Option<LogConfiguration>,
    pub health_check: Option<HealthCheck>,
    pub ulimits: Vec<Ulimit>,
    pub extra_hosts: Vec<ExtraHost>,
    pub linux_parameters: Option<LinuxParameters>,
    pub depends_on: Vec<DependsOn>,
    pub repository_credentials: Option<RepositoryCredentials>,
    pub docker_labels: KeyedMap<String>,
    pub cpu: i32,
    pub memory: Option<i32>,
    pub memory_reservation: Option<i32>,
    pub links: Vec<String>,
    pub essential: bool,
    pub entry_point: Option<String>,
    pub command: Option<Vec<String>>,
    pub user: Option<String>,
    pub privileged: bool,
    pub readonly_root_filesystem: bool,
    pub docker_security_options: Vec<String>,
    pub system_controls: Vec<SystemControl>,
}

#[derive(Debug)]
pub struct Secret {
    pub name: String,
    pub value_from: String,
}

#[derive(Debug)]
pub struct PortMapping {
    pub container_port: i32,
    pub host_port: i32,
    pub protocol: String,
}

#[derive(Debug)]
pub struct MountPoint {
    pub source_volume: String,
    pub container_path: String,
    pub read_only: bool,
}

#[derive(Debug)]
pub struct VolumeFrom {
    pub source_container: String,
    pub read_only: bool,
}

#[derive(Debug)]
pub struct LogConfiguration {
    pub log_driver: String,
    pub options: KeyedMap<String>,
}

#[derive(Debug)]
pub struct HealthCheck {
    pub command: Vec<String>,
    pub interval: i32,
    pub retries: i32,
    pub timeout: i32,
    pub start_period: Option<i32>,
}

#[derive(Debug)]
pub struct Ulimit {
    pub name: String,
    pub soft_limit: i32,
    pub hard_limit: i32,
}

#[derive(Debug)]
pub struct ExtraHost {
    pub hostname: String,
    pub ip_address: String,
}

#[derive(Debug)]
pub struct LinuxParameters {
    pub capabilities: Option<Vec<Capability>>,
    pub devices: Option<Vec<Device>>,
    pub init_process_enabled: Option<bool>,
    pub shared_memory_size: Option<i32>,
    pub tmpfs: Option<Vec<Tmpfs>>,
}

#[derive(Debug)]
pub struct Capability {
    pub add: Vec<String>,
    pub drop: Vec<String>,
}

#[derive(Debug)]
pub struct Device {
    pub host_path: String,
    pub container_path: Option<String>,
    pub permissions: Vec<String>,
}

#[derive(Debug)]
pub struct Tmpfs {
    pub container_path: String,
    pub mount_options: Vec<String>,
    pub size: i32,
}

#[derive(Debug)]
pub struct DependsOn {
    pub container_name: String,
    pub condition: String,
}

#[derive(Debug)]
pub struct RepositoryCredentials {
    pub credentials_parameter: String,
}

#[derive(Debug)]
pub struct SystemControl {
    pub namespace: String,
    pub value: String,
}

/// A container is essential unless the definition says otherwise.
pub fn default_as_true() -> (b: bool)
    ensures
        b,
{
    true
}

/// A port mapping uses TCP unless the definition says otherwise.
pub fn default_as_tcp() -> (s: String)
    ensures
        s@ == "tcp"@,
{
    String::from_str("tcp")
}

/// Seconds between health checks unless the definition says otherwise.
pub fn default_interval() -> (n: i32)
    ensures
        n == 30,
{
    30
}

/// Health check retries unless the definition says otherwise.
pub fn default_retries() -> (n: i32)
    ensures
        n == 3,
{
    3
}

/// Seconds before a health check times out unless the definition says otherwise.
pub fn default_timeout() -> (n: i32)
    ensures
        n == 5,
{
    5
}

} // verus!
