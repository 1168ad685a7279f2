//! The decisions of the one-shot deployment service.
//!
//! A deployment of an application reads the object that names the current
//! revision, reads the application's definition in that revision, registers
//! the task definition built from it and answers with its ARN. The service
//! drives a `DeployState` with the outcome of each storage or registration
//! call; every call and the final answer come out as a `DeployAction`.
use crate::definition::Definition;
use crate::ecs::TaskDefinitionRequest;
use crate::keys::{
    current_key, current_key_spec, current_revision, current_revision_spec, definition_key,
    definition_key_spec, object_url, object_url_spec,
};
use crate::task_definition::{build_oneshot_task_definition, is_oneshot_task_definition};
use vstd::prelude::*;
use vstd::string::*;

verus! {

/// Where the service finds the published definitions.
#[derive(Debug)]
pub struct DeploymentServiceConfig {
    pub s3_bucket: String,
    pub s3_prefix: String,
}

/// The kind of a refusal.
#[derive(Debug, PartialEq, Eq)]
pub enum Code {
    InvalidArgument,
    NotFound,
    Internal,
}

/// A refusal, with its message.
#[derive(Debug)]
pub struct Status {
    pub code: Code,
    pub message: String,
}

/// The answer to a successful deployment.
#[derive(Debug)]
pub struct DeployOneshotResponse {
    pub task_definition_arn: String,
}

/// Turns the outcome of a deployment into its answer: an answer stays as it
/// is, and a failure becomes an internal error that carries its message.
pub fn wrap<T>(result: Result<Result<T, Status>, String>) -> (r: Result<T, Status>)
    ensures
        match result {
            Ok(answer) => r == answer,
            Err(message) => r matches Err(s) && s.code is Internal && s.message@ == message@,
        },
{
    match result {
        Ok(answer) => answer,
        Err(message) => Err(Status { code: Code::Internal, message }),
    }
}

/// Where a deployment stands.
#[derive(Debug)]
pub enum DeployState {
    /// Waiting for the object `key` that names the current revision.
    FetchingCurrent { app_id: String, key: String },
    /// Waiting for the definition of `app_id`, stored under `key`.
    FetchingDefinition { app_id: String, key: String },
    /// Waiting for the registration of the task definition read from `key`.
    Registering { key: String },
    /// The deployment has been answered.
    Finished,
}

/// The outcome of the call that a deployment waits for.
#[derive(Debug)]
pub enum DeployEvent {
    /// The contents of the object that names the current revision.
    CurrentObjectRead(Vec<u8>),
    /// The definition, read and decoded.
    DefinitionRead(Definition),
    /// The object does not exist.
    ObjectMissing,
    /// The object could not be fetched.
    GetObjectFailed,
    /// The contents of the object could not be read.
    BodyReadFailed,
    /// The contents of the definition are not a definition.
    DefinitionMalformed,
    /// The task definition was registered under this ARN.
    Registered(String),
    /// The registration failed.
    RegisterFailed,
}

/// What the service is to do next.
#[derive(Debug)]
pub enum DeployAction {
    /// Fetch the object that names the current revision.
    GetCurrentObject { bucket: String, key: String },
    /// Fetch and decode a definition.
    GetDefinition { bucket: String, key: String },
    /// Register a task definition.
    Register(TaskDefinitionRequest),
    /// Answer the request.
    Reply(Result<DeployOneshotResponse, Status>),
}

/// Whether `event` is an outcome of the call that `state` waits for.
pub open spec fn expects(state: DeployState, event: DeployEvent) -> bool {
    match state {
        DeployState::FetchingCurrent { .. } => {
            ||| event is CurrentObjectRead
            ||| event is ObjectMissing
            ||| event is GetObjectFailed
            ||| event is BodyReadFailed
        },
        DeployState::FetchingDefinition { .. } => {
            ||| event is DefinitionRead
            ||| event is ObjectMissing
            ||| event is GetObjectFailed
            ||| event is BodyReadFailed
            ||| event is DefinitionMalformed
        },
        DeployState::Registering { .. } => event is Registered || event is RegisterFailed,
        DeployState::Finished => false,
    }
}

/// Whether `action` answers with a refusal of kind `code` and message `message`.
pub open spec fn refuses(action: DeployAction, code: Code, message: Seq<char>) -> bool {
    action matches DeployAction::Reply(Err(s)) && s.code == code && s.message@ == message
}

/// Whether the deployment ends with an internal error with message `message`.
pub open spec fn fails(next: DeployState, action: DeployAction, message: Seq<char>) -> bool {
    next is Finished && refuses(action, Code::Internal, message)
}

/// The message of a refused request without application.
pub open spec fn missing_app_id_message() -> Seq<char> {
    "app_id must be present"@
}

/// The message of a refused request for an application without definition.
pub open spec fn not_registered_message(app_id: Seq<char>) -> Seq<char> {
    app_id + " is not registered"@
}

/// How a deployment of `app_id` begins.
pub open spec fn start_spec(
    config: DeploymentServiceConfig,
    app_id: Seq<char>,
    next: DeployState,
    action: DeployAction,
) -> bool {
    if app_id.len() == 0 {
        next is Finished && refuses(action, Code::InvalidArgument, missing_app_id_message())
    } else {
        let key = current_key_spec(config.s3_prefix@);
        &&& next matches DeployState::FetchingCurrent { app_id: a, key: k } && a@ == app_id
            && k@ == key
        &&& action matches DeployAction::GetCurrentObject { bucket: b, key: k } && b@
            == config.s3_bucket@ && k@ == key
    }
}

/// What a deployment does with the outcome `event` of the call it waits for.
pub open spec fn step_spec(
    config: DeploymentServiceConfig,
    state: DeployState,
    event: DeployEvent,
    next: DeployState,
    action: DeployAction,
) -> bool {
    let bucket = config.s3_bucket@;
    match state {
        DeployState::FetchingCurrent { app_id, key } => {
            let url = object_url_spec(bucket, key@);
            match event {
                DeployEvent::CurrentObjectRead(body) => match current_revision_spec(body@) {
                    Some(revision) => {
                        let k = definition_key_spec(config.s3_prefix@, revision, app_id@);
                        &&& next matches DeployState::FetchingDefinition { app_id: a, key: nk }
                            && a@ == app_id@ && nk@ == k
                        &&& action matches DeployAction::GetDefinition { bucket: b, key: ak }
                            && b@ == bucket && ak@ == k
                    },
                    None => fails(
                        next,
                        action,
                        "failed to read contents of current object "@ + url + " as UTF-8"@,
                    ),
                },
                DeployEvent::BodyReadFailed => fails(
                    next,
                    action,
                    "failed to read contents of current object "@ + url,
                ),
                _ => fails(next, action, "failed to get current object "@ + url),
            }
        },
        DeployState::FetchingDefinition { app_id, key } => {
            let url = object_url_spec(bucket, key@);
            match event {
                DeployEvent::DefinitionRead(d) => {
                    &&& next matches DeployState::Registering { key: nk } && nk@ == key@
                    &&& action matches DeployAction::Register(r) && is_oneshot_task_definition(
                        r,
                        app_id@,
                        d,
                    )
                },
                DeployEvent::ObjectMissing => {
                    &&& next is Finished
                    &&& refuses(action, Code::NotFound, not_registered_message(app_id@))
                },
                DeployEvent::BodyReadFailed => fails(
                    next,
                    action,
                    "failed to read contents of definition "@ + url,
                ),
                DeployEvent::DefinitionMalformed => fails(
                    next,
                    action,
                    "failed to deserialize definition "@ + url,
                ),
                _ => fails(next, action, "failed to get definition "@ + url),
            }
        },
        DeployState::Registering { key } => match event {
            DeployEvent::Registered(arn) => {
                &&& next is Finished
                &&& action matches DeployAction::Reply(Ok(resp)) && resp.task_definition_arn@
                    == arn@
            },
            _ => fails(
                next,
                action,
                "failed to register task definition from "@ + object_url_spec(bucket, key@),
            ),
        },
        DeployState::Finished => false,
    }
}

/// `what` followed by the URL of an object.
fn about_object(what: &str, bucket: &str, key: &str) -> (r: String)
    ensures
        r@ == what@ + object_url_spec(bucket@, key@),
{
    let mut m = what.to_owned();
    m.append(object_url(bucket, key).as_str());
    m
}

/// Ends a deployment with an internal error.
fn fail(message: String) -> (r: (DeployState, DeployAction))
    ensures
        fails(r.0, r.1, message@),
{
    (DeployState::Finished, DeployAction::Reply(wrap(Err(message))))
}

impl DeployState {
    /// Whether `event` is an outcome of the call that this state waits for.
    pub fn accepts(&self, event: &DeployEvent) -> (b: bool)
        ensures
            b == expects(*self, *event),
    {
        match self {
            DeployState::FetchingCurrent { .. } => match event {
                DeployEvent::CurrentObjectRead(_) | DeployEvent::ObjectMissing
                | DeployEvent::GetObjectFailed | DeployEvent::BodyReadFailed => true,
                _ => false,
            },
            DeployState::FetchingDefinition { .. } => match event {
                DeployEvent::DefinitionRead(_) | DeployEvent::ObjectMissing
                | DeployEvent::GetObjectFailed | DeployEvent::BodyReadFailed
                | DeployEvent::DefinitionMalformed => true,
                _ => false,
            },
            DeployState::Registering { .. } => match event {
                DeployEvent::Registered(_) | DeployEvent::RegisterFailed => true,
                _ => false,
            },
            DeployState::Finished => false,
        }
    }

    /// Begins a deployment of `app_id`: a request without application is
    /// refused at once; otherwise the current revision is fetched.
    pub fn start(config: &DeploymentServiceConfig, app_id: &str) -> (r: (DeployState, DeployAction))
        ensures
            start_spec(*config, app_id@, r.0, r.1),
    {
        if app_id.is_empty() {
            let message = String::from_str("app_id must be present");
            return (
                DeployState::Finished,
                DeployAction::Reply(Err(Status { code: Code::InvalidArgument, message })),
            );
        }
        let key = current_key(config.s3_prefix.as_str());
        let bucket = config.s3_bucket.clone();
        let next = DeployState::FetchingCurrent { app_id: app_id.to_owned(), key: key.clone() };
        (next, DeployAction::GetCurrentObject { bucket, key })
    }

    /// Takes the outcome `event` of the call that this state waits for, and
    /// gives the next state and what to do.
    pub fn step(self, config: &DeploymentServiceConfig, event: DeployEvent) -> (r: (
        DeployState,
        DeployAction,
    ))
        requires
            expects(self, event),
        ensures
            step_spec(*config, self, event, r.0, r.1),
    {
        let bucket = config.s3_bucket.as_str();
        match self {
            DeployState::FetchingCurrent { app_id, key } => match event {
                DeployEvent::CurrentObjectRead(body) => match current_revision(body.as_slice()) {
                    Some(revision) => {
                        let k = definition_key(
                            config.s3_prefix.as_str(),
                            revision.as_str(),
                            app_id.as_str(),
                        );
                        let action = DeployAction::GetDefinition {
                            bucket: config.s3_bucket.clone(),
                            key: k.clone(),
                        };
                        (DeployState::FetchingDefinition { app_id, key: k }, action)
                    },
                    None => {
                        let mut m = about_object(
                            "failed to read contents of current object ",
                            bucket,
                            key.as_str(),
                        );
                        m.append(" as UTF-8");
                        fail(m)
                    },
                },
                DeployEvent::BodyReadFailed => fail(
                    about_object("failed to read contents of current object ", bucket, key.as_str()),
                ),
                _ => fail(about_object("failed to get current object ", bucket, key.as_str())),
            },
            DeployState::FetchingDefinition { app_id, key } => match event {
                DeployEvent::DefinitionRead(d) => {
                    let request = build_oneshot_task_definition(app_id.as_str(), &d);
                    (DeployState::Registering { key }, DeployAction::Register(request))
                },
                DeployEvent::ObjectMissing => {
                    let mut message = app_id;
                    message.append(" is not registered");
                    (
                        DeployState::Finished,
                        DeployAction::Reply(Err(Status { code: Code::NotFound, message })),
                    )
                },
                DeployEvent::BodyReadFailed => fail(
                    about_object("failed to read contents of definition ", bucket, key.as_str()),
                ),
                DeployEvent::DefinitionMalformed => fail(
                    about_object("failed to deserialize definition ", bucket, key.as_str()),
                ),
                _ => fail(about_object("failed to get definition ", bucket, key.as_str())),
            },
            DeployState::Registering { key } => match event {
                DeployEvent::Registered(task_definition_arn) => (
                    DeployState::Finished,
                    DeployAction::Reply(wrap(Ok(Ok(DeployOneshotResponse { task_definition_arn })))),
                ),
                _ => fail(
                    about_object("failed to register task definition from ", bucket, key.as_str()),
                ),
            },
            DeployState::Finished => vstd::pervasive::unreached(),
        }
    }
}

} // verus!
