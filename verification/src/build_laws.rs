//! What the task definition registered for a one-shot run carries over from
//! the application's definition.
use crate::definition::{Definition, LogConfiguration};
use crate::ecs::{
    compatibility_name, lemma_compatibility_keeps_name, lemma_log_driver_keeps_name,
    lemma_network_mode_keeps_name, log_driver_name, network_mode_name, ContainerLogConfiguration,
    TaskDefinitionRequest,
};
use crate::task_definition::{is_log_configuration_of, is_oneshot_task_definition};
use crate::text::opt_view;
use vstd::prelude::*;
use vstd::string::*;

verus! {

/// A log configuration is carried over whole: there is one exactly when the
/// definition has one, its driver registers under the definition's driver
/// name, and its options are the definition's options, whatever the driver.
pub proof fn lemma_log_configuration_carried(
    out: Option<ContainerLogConfiguration>,
    given: Option<LogConfiguration>,
)
    requires
        is_log_configuration_of(out, given),
    ensures
        out is None <==> given is None,
        given matches Some(l) ==> out matches Some(o) && o.options@ == l.options@
            && log_driver_name(o.log_driver) == l.log_driver@,
{
    if let Some(l) = given {
        if let Some(o) = out {
            lemma_log_driver_keeps_name(l.log_driver@, o.log_driver);
        }
    }
}

/// The registered task definition is named after the application and carries
/// every scheduling parameter of the definition unchanged: roles, CPU, memory,
/// the network mode's name and each compatibility's name, in order.
pub proof fn lemma_request_keeps_scheduler(
    r: TaskDefinitionRequest,
    app_id: Seq<char>,
    d: Definition,
)
    requires
        is_oneshot_task_definition(r, app_id, d),
    ensures
        r.family@ == app_id,
        opt_view(r.task_role_arn) == opt_view(d.scheduler.task_role_arn),
        opt_view(r.execution_role_arn) == opt_view(d.scheduler.execution_role_arn),
        opt_view(r.cpu) == opt_view(d.scheduler.cpu),
        opt_view(r.memory) == opt_view(d.scheduler.memory),
        r.network_mode is None <==> d.scheduler.network_mode is None,
        r.network_mode matches Some(m) ==> network_mode_name(m)
            == d.scheduler.network_mode->0@,
        r.requires_compatibilities@.len() == d.scheduler.requires_compatibilities@.len(),
        forall|i: int|
            0 <= i < r.requires_compatibilities@.len() ==> compatibility_name(
                #[trigger] r.requires_compatibilities@[i],
            ) == d.scheduler.requires_compatibilities@[i]@,
{
    if let Some(name) = d.scheduler.network_mode {
        lemma_network_mode_keeps_name(name@, r.network_mode->0);
    }
    assert forall|i: int| 0 <= i < r.requires_compatibilities@.len() implies compatibility_name(
        #[trigger] r.requires_compatibilities@[i],
    ) == d.scheduler.requires_compatibilities@[i]@ by {
        let compat = d.scheduler.requires_compatibilities@;
        lemma_compatibility_keeps_name(compat[i]@, r.requires_compatibilities@[i]);
    }
}

/// The registered task definition runs one container per container of the
/// definition: first `app`, running the application's image at its tag (or
/// at `latest`), then each sidecar in order, under its name and running its
/// image; each one carries its own log configuration.
pub proof fn lemma_request_containers(r: TaskDefinitionRequest, app_id: Seq<char>, d: Definition)
    requires
        is_oneshot_task_definition(r, app_id, d),
    ensures
        r.container_definitions@.len() == d.sidecars@.len() + 1,
        r.container_definitions@[0].name@ == seq!['a', 'p', 'p'],
        r.container_definitions@[0].image@ == d.app.image@ + seq![':'] + match d.app.tag {
            Some(tag) => tag@,
            None => seq!['l', 'a', 't', 'e', 's', 't'],
        },
        is_log_configuration_of(
            r.container_definitions@[0].log_configuration,
            d.app.attributes.log_configuration,
        ),
        forall|i: int|
            0 <= i < d.sidecars@.len() ==> {
                let c = #[trigger] r.container_definitions@[i + 1];
                &&& c.name@ == d.sidecars@[i].0
                &&& c.image@ == d.sidecars@[i].1.image_tag@
                &&& is_log_configuration_of(
                    c.log_configuration,
                    d.sidecars@[i].1.attributes.log_configuration,
                )
            },
{
    reveal_strlit("app");
    reveal_strlit(":");
    reveal_strlit(":latest");
    assert(":latest"@ =~= seq![':'] + seq!['l', 'a', 't', 'e', 's', 't']);
    assert("app"@ =~= seq!['a', 'p', 'p']);
    match d.app.tag {
        Some(tag) => {
            assert(":"@ =~= seq![':']);
        },
        None => {
            assert(d.app.image@ + ":latest"@ =~= d.app.image@ + seq![':'] + seq![
                'l',
                'a',
                't',
                'e',
                's',
                't',
            ]);
        },
    }
}

} // verus!
