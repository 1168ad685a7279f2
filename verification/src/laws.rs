//! Properties that hold across the functions of the library.
use crate::deploy::{
    expects, refuses, start_spec, step_spec, Code, DeployAction, DeployEvent, DeployState,
    DeploymentServiceConfig,
};
use crate::build_laws::{lemma_request_containers, lemma_request_keeps_scheduler};
use crate::definition::Definition;
use crate::text::opt_view;
use crate::keys::{current_object_body_spec, current_revision_spec, definition_key_spec};
use crate::text::{is_white_space, last_dot, lemma_last_dot_bounds, trim_end};
use crate::upload::{app_id_spec, is_jsonnet_spec};
use vstd::prelude::*;
use vstd::string::*;
use vstd::utf8::*;

verus! {

/// How many calls a deployment in `state` waits for at most before it is answered.
pub open spec fn remaining_calls(state: DeployState) -> nat {
    match state {
        DeployState::FetchingCurrent { .. } => 3,
        DeployState::FetchingDefinition { .. } => 2,
        DeployState::Registering { .. } => 1,
        DeployState::Finished => 0,
    }
}

/// A revision followed by a line feed reads back as the revision, unless the
/// revision itself ends in white space.
pub proof fn lemma_trim_end_line(revision: Seq<char>)
    requires
        revision.len() == 0 || !is_white_space(revision.last()),
    ensures
        trim_end(revision + "\n"@) == revision,
{
    reveal_strlit("\n");
    let s = revision + "\n"@;
    assert(s.last() == '\n');
    assert(('\n' as u32) == 10);
    assert(is_white_space(s.last()));
    assert(s.drop_last() =~= revision);
    assert(trim_end(revision) == revision);
    assert(trim_end(s) == trim_end(s.drop_last()));
}

/// The revision that the uploader publishes as current is the revision that
/// the deployment service reads back, for every revision that does not end in
/// white space.
pub proof fn lemma_published_revision_is_read(revision: Seq<char>)
    requires
        revision.len() == 0 || !is_white_space(revision.last()),
    ensures
        current_revision_spec(current_object_body_spec(revision)) == Some(revision),
{
    encode_utf8_valid_utf8(revision + "\n"@);
    encode_utf8_decode_utf8(revision + "\n"@);
    lemma_trim_end_line(revision);
}

/// Given the current object that the uploader wrote for `revision`, a
/// deployment of `app_id` fetches the definition from the key under which the
/// uploader stored the definition of `app_id` in that revision.
pub proof fn lemma_deploy_reads_published_definition(
    config: DeploymentServiceConfig,
    app_id: String,
    key: String,
    revision: Seq<char>,
    body: Vec<u8>,
    next: DeployState,
    action: DeployAction,
)
    requires
        revision.len() == 0 || !is_white_space(revision.last()),
        body@ == current_object_body_spec(revision),
        step_spec(
            config,
            DeployState::FetchingCurrent { app_id, key },
            DeployEvent::CurrentObjectRead(body),
            next,
            action,
        ),
    ensures
        action matches DeployAction::GetDefinition { bucket: b, key: k } && b@ == config.s3_bucket@
            && k@ == definition_key_spec(config.s3_prefix@, revision, app_id@),
{
    lemma_published_revision_is_read(revision);
}

/// Each step of a deployment brings it closer to its answer, and a deployment
/// is finished exactly when it answers: no deployment makes more than three
/// calls.
pub proof fn lemma_deployment_progresses(
    config: DeploymentServiceConfig,
    state: DeployState,
    event: DeployEvent,
    next: DeployState,
    action: DeployAction,
)
    requires
        expects(state, event),
        step_spec(config, state, event, next, action),
    ensures
        remaining_calls(next) < remaining_calls(state),
        action is Reply <==> next is Finished,
{
}

/// A deployment begins with a call unless it refuses the request at once, in
/// which case it is finished.
pub proof fn lemma_start_calls_or_answers(
    config: DeploymentServiceConfig,
    app_id: Seq<char>,
    next: DeployState,
    action: DeployAction,
)
    requires
        start_spec(config, app_id, next, action),
    ensures
        action is Reply <==> next is Finished,
        action is Reply <==> app_id.len() == 0,
{
}

/// A deployment answers "not found" only when the definition of the
/// application is missing from the current revision.
pub proof fn lemma_not_found_only_for_missing_definition(
    config: DeploymentServiceConfig,
    state: DeployState,
    event: DeployEvent,
    next: DeployState,
    action: DeployAction,
    message: Seq<char>,
)
    requires
        expects(state, event),
        step_spec(config, state, event, next, action),
        refuses(action, Code::NotFound, message),
    ensures
        state is FetchingDefinition,
        event is ObjectMissing,
{
}

/// Every Jsonnet source names an application: stripping `.jsonnet` from its
/// name succeeds.
pub proof fn lemma_jsonnet_file_names_an_app(file_name: Seq<char>)
    requires
        is_jsonnet_spec(file_name),
    ensures
        app_id_spec(file_name) is Some,
{
    reveal_strlit("jsonnet");
    reveal_strlit(".jsonnet");
    lemma_last_dot_bounds(file_name);
    let i = last_dot(file_name);
    let n = file_name.len() as int;
    assert(file_name.subrange(i + 1, n) == "jsonnet"@);
    assert(n - i == 8);
    assert(file_name.subrange(n - 8, n) =~= ".jsonnet"@) by {
        assert forall|j: int| 0 <= j < 8 implies file_name.subrange(n - 8, n)[j] == ".jsonnet"@[j] by {
            if j > 0 {
                assert(file_name.subrange(n - 8, n)[j] == file_name.subrange(i + 1, n)[j - 1]);
            }
        }
    }
}

/// A deployment takes every outcome of the call it waits for: fetching the
/// current revision can give its contents, a missing object, a failed fetch
/// or an unreadable body; fetching the definition can give the definition, a
/// missing object, a failed fetch, an unreadable body or a malformed
/// definition; registering can succeed or fail. An answered deployment takes
/// nothing more.
pub proof fn lemma_every_call_outcome_is_taken(
    app_id: String,
    key: String,
    body: Vec<u8>,
    d: Definition,
    arn: String,
)
    ensures
        expects(
            DeployState::FetchingCurrent { app_id, key },
            DeployEvent::CurrentObjectRead(body),
        ),
        expects(DeployState::FetchingCurrent { app_id, key }, DeployEvent::ObjectMissing),
        expects(DeployState::FetchingCurrent { app_id, key }, DeployEvent::GetObjectFailed),
        expects(DeployState::FetchingCurrent { app_id, key }, DeployEvent::BodyReadFailed),
        expects(DeployState::FetchingDefinition { app_id, key }, DeployEvent::DefinitionRead(d)),
        expects(DeployState::FetchingDefinition { app_id, key }, DeployEvent::ObjectMissing),
        expects(DeployState::FetchingDefinition { app_id, key }, DeployEvent::GetObjectFailed),
        expects(DeployState::FetchingDefinition { app_id, key }, DeployEvent::BodyReadFailed),
        expects(DeployState::FetchingDefinition { app_id, key }, DeployEvent::DefinitionMalformed),
        expects(DeployState::Registering { key }, DeployEvent::Registered(arn)),
        expects(DeployState::Registering { key }, DeployEvent::RegisterFailed),
        !expects(DeployState::Finished, DeployEvent::ObjectMissing),
{
}

/// A deployment whose definition is missing answers "not found" with a
/// message that begins with the application's name.
pub proof fn lemma_missing_definition_answers_not_found(
    config: DeploymentServiceConfig,
    app_id: String,
    key: String,
    next: DeployState,
    action: DeployAction,
)
    requires
        step_spec(
            config,
            DeployState::FetchingDefinition { app_id, key },
            DeployEvent::ObjectMissing,
            next,
            action,
        ),
    ensures
        next is Finished,
        action matches DeployAction::Reply(Err(s)) && s.code is NotFound && s.message@.subrange(
            0,
            app_id@.len() as int,
        ) == app_id@,
{
    if let DeployAction::Reply(Err(s)) = action {
        assert(s.message@.subrange(0, app_id@.len() as int) =~= app_id@);
    }
}

/// The task definition that a deployment registers is the one of the
/// application being deployed, built from the definition that was read: it is
/// named after the application and runs its main container and each sidecar.
pub proof fn lemma_registers_read_definition(
    config: DeploymentServiceConfig,
    app_id: String,
    key: String,
    d: Definition,
    next: DeployState,
    action: DeployAction,
)
    requires
        step_spec(
            config,
            DeployState::FetchingDefinition { app_id, key },
            DeployEvent::DefinitionRead(d),
            next,
            action,
        ),
    ensures
        next matches DeployState::Registering { key: k } && k@ == key@,
        action matches DeployAction::Register(r) && r.family@ == app_id@
            && r.container_definitions@.len() == d.sidecars@.len() + 1
            && opt_view(r.memory) == opt_view(d.scheduler.memory)
            && opt_view(r.cpu) == opt_view(d.scheduler.cpu),
{
    if let DeployAction::Register(r) = action {
        lemma_request_keeps_scheduler(r, app_id@, d);
        lemma_request_containers(r, app_id@, d);
    }
}

/// A deployment whose task definition was registered answers with the ARN
/// under which it was registered.
pub proof fn lemma_registered_answers_arn(
    config: DeploymentServiceConfig,
    key: String,
    arn: String,
    next: DeployState,
    action: DeployAction,
)
    requires
        step_spec(config, DeployState::Registering { key }, DeployEvent::Registered(arn), next, action),
    ensures
        next is Finished,
        action matches DeployAction::Reply(Ok(resp)) && resp.task_definition_arn@ == arn@,
{
}

/// Once a deployment has begun, it refuses only with "not found" or an
/// internal error: an invalid argument is answered at the start alone, and
/// only for a request without application.
pub proof fn lemma_refusals_after_start(
    config: DeploymentServiceConfig,
    state: DeployState,
    event: DeployEvent,
    next: DeployState,
    action: DeployAction,
)
    requires
        expects(state, event),
        step_spec(config, state, event, next, action),
    ensures
        action matches DeployAction::Reply(Err(s)) ==> (s.code is NotFound || s.code is Internal),
{
}

/// A request is refused as invalid exactly when it names no application.
pub proof fn lemma_invalid_argument_only_without_app(
    config: DeploymentServiceConfig,
    app_id: Seq<char>,
    next: DeployState,
    action: DeployAction,
)
    requires
        start_spec(config, app_id, next, action),
    ensures
        (action matches DeployAction::Reply(Err(s)) && s.code is InvalidArgument) <==> app_id.len()
            == 0,
{
}

} // verus!
