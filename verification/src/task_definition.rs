//! The task definition registered for a one-shot run of an application.
use crate::definition::{App, ContainerAttributes, Definition, LogConfiguration};
use crate::ecs::{
    compatibility_named, log_driver_named, network_mode_named, parse_compatibility,
    parse_log_driver, parse_network_mode, Compatibility, ContainerDefinition,
    ContainerLogConfiguration, TaskDefinitionRequest,
};
use crate::keyed_map::{lemma_key_index, KeyedMap};
use crate::text::{clone_opt, opt_view};
use vstd::prelude::*;
use vstd::string::*;

verus! {

/// The image of the main container: the image with its tag, `latest` when
/// the definition names none.
pub open spec fn app_image(app: App) -> Seq<char> {
    match app.tag {
        Some(tag) => app.image@ + ":"@ + tag@,
        None => app.image@ + ":latest"@,
    }
}

/// Whether `out` is the ECS log configuration of the definition's `given`.
pub open spec fn is_log_configuration_of(
    out: Option<ContainerLogConfiguration>,
    given: Option<LogConfiguration>,
) -> bool {
    match given {
        None => out is None,
        Some(l) => match out {
            Some(o) => log_driver_named(l.log_driver@, o.log_driver) && o.options@ == l.options@,
            None => false,
        },
    }
}

/// Whether `c` is the container named `name` running `image` with the
/// attributes `attributes`.
pub open spec fn is_container(
    c: ContainerDefinition,
    name: Seq<char>,
    image: Seq<char>,
    attributes: ContainerAttributes,
) -> bool {
    &&& c.name@ == name
    &&& c.image@ == image
    &&& is_log_configuration_of(c.log_configuration, attributes.log_configuration)
}

/// Whether `r` is the task definition registered for a one-shot run of the
/// application `app_id` defined by `d`: the family is the application, the
/// scheduling parameters are those of the definition, the first container is
/// `app`, and each sidecar follows as a container of its own, in order.
pub open spec fn is_oneshot_task_definition(
    r: TaskDefinitionRequest,
    app_id: Seq<char>,
    d: Definition,
) -> bool {
    let sidecars = d.sidecars@;
    let compat = d.scheduler.requires_compatibilities@;
    &&& r.family@ == app_id
    &&& opt_view(r.task_role_arn) == opt_view(d.scheduler.task_role_arn)
    &&& opt_view(r.execution_role_arn) == opt_view(d.scheduler.execution_role_arn)
    &&& opt_view(r.cpu) == opt_view(d.scheduler.cpu)
    &&& opt_view(r.memory) == opt_view(d.scheduler.memory)
    &&& match d.scheduler.network_mode {
        None => r.network_mode is None,
        Some(name) => r.network_mode matches Some(m) && network_mode_named(name@, m),
    }
    &&& r.requires_compatibilities@.len() == compat.len()
    &&& forall|i: int|
        0 <= i < compat.len() ==> compatibility_named(
            #[trigger] compat[i]@,
            r.requires_compatibilities@[i],
        )
    &&& r.container_definitions@.len() == sidecars.len() + 1
    &&& is_container(r.container_definitions@[0], "app"@, app_image(d.app), d.app.attributes)
    &&& forall|i: int|
        0 <= i < sidecars.len() ==> is_container(
            #[trigger] r.container_definitions@[i + 1],
            sidecars[i].0,
            sidecars[i].1.image_tag@,
            sidecars[i].1.attributes,
        )
}

/// A copy of string options, entry by entry in their order.
fn copy_options(options: &KeyedMap<String>) -> (r: KeyedMap<String>)
    ensures
        r@ == options@,
{
    proof {
        use_type_invariant(options);
    }
    let mut r: KeyedMap<String> = KeyedMap::new();
    let n = options.len();
    let mut i: usize = 0;
    while i < n
        invariant
            n == options@.len(),
            i <= n,
            options.keys_are_distinct(),
            r@ == options@.take(i as int),
        decreases n - i,
    {
        let k = options.key_at(i).clone();
        let v = options.value_at(i).clone();
        proof {
            lemma_key_index(r@, k@);
            assert forall|j: int| 0 <= j < r@.len() implies #[trigger] r@[j].0 != k@ by {
                assert(r@[j] == options@[j]);
            }
        }
        r.insert(k, v);
        assert(r@ =~= options@.take(i + 1));
        i = i + 1;
    }
    assert(options@.take(n as int) =~= options@);
    r
}

/// Adds to `container` what the ECS task definition takes of the container
/// attributes: the log configuration.
pub fn build_container_definition(
    container: ContainerDefinition,
    attributes: &ContainerAttributes,
) -> (r: ContainerDefinition)
    ensures
        r.name == container.name,
        r.image == container.image,
        match attributes.log_configuration {
            Some(_) => is_log_configuration_of(r.log_configuration, attributes.log_configuration),
            None => r.log_configuration == container.log_configuration,
        },
{
    let mut c = container;
    match &attributes.log_configuration {
        Some(log_configuration) => {
            let log_driver = parse_log_driver(log_configuration.log_driver.as_str());
            let options = copy_options(&log_configuration.options);
            c.log_configuration = Some(ContainerLogConfiguration { log_driver, options });
        },
        None => {},
    }
    c
}

/// The image of the main container.
fn app_image_of(app: &App) -> (r: String)
    ensures
        r@ == app_image(*app),
{
    let mut image = app.image.clone();
    match &app.tag {
        Some(tag) => {
            image.append(":");
            image.append(tag.as_str());
        },
        None => {
            image.append(":latest");
        },
    }
    image
}

/// The task definition registered for a one-shot run of the application
/// `app_id` defined by `definition`.
pub fn build_oneshot_task_definition(app_id: &str, definition: &Definition) -> (r:
    TaskDefinitionRequest)
    ensures
        is_oneshot_task_definition(r, app_id@, *definition),
{
    let scheduler = &definition.scheduler;
    let network_mode = match &scheduler.network_mode {
        Some(name) => Some(parse_network_mode(name.as_str())),
        None => None,
    };
    let mut requires_compatibilities: Vec<Compatibility> = Vec::new();
    let nc = scheduler.requires_compatibilities.len();
    let mut i: usize = 0;
    while i < nc
        invariant
            nc == scheduler.requires_compatibilities@.len(),
            i <= nc,
            requires_compatibilities@.len() == i,
            forall|j: int|
                0 <= j < i ==> compatibility_named(
                    #[trigger] scheduler.requires_compatibilities@[j]@,
                    requires_compatibilities@[j],
                ),
        decreases nc - i,
    {
        let c = parse_compatibility(scheduler.requires_compatibilities[i].as_str());
        requires_compatibilities.push(c);
        i = i + 1;
    }

    let mut container_definitions: Vec<ContainerDefinition> = Vec::new();
    let app = ContainerDefinition::new(String::from_str("app"), app_image_of(&definition.app));
    let app = build_container_definition(app, &definition.app.attributes);
    container_definitions.push(app);

    let sidecars = &definition.sidecars;
    let ns = sidecars.len();
    let mut k: usize = 0;
    while k < ns
        invariant
            ns == sidecars@.len(),
            k <= ns,
            container_definitions@.len() == k + 1,
            is_container(
                container_definitions@[0],
                "app"@,
                app_image(definition.app),
                definition.app.attributes,
            ),
            forall|j: int|
                0 <= j < k ==> is_container(
                    #[trigger] container_definitions@[j + 1],
                    sidecars@[j].0,
                    sidecars@[j].1.image_tag@,
                    sidecars@[j].1.attributes,
                ),
        decreases ns - k,
    {
        let name = sidecars.key_at(k).clone();
        let sidecar = sidecars.value_at(k);
        let c = ContainerDefinition::new(name, sidecar.image_tag.clone());
        let c = build_container_definition(c, &sidecar.attributes);
        container_definitions.push(c);
        k = k + 1;
    }

    TaskDefinitionRequest {
        family: app_id.to_owned(),
        task_role_arn: clone_opt(&scheduler.task_role_arn),
        execution_role_arn: clone_opt(&scheduler.execution_role_arn),
        network_mode,
        cpu: clone_opt(&scheduler.cpu),
        memory: clone_opt(&scheduler.memory),
        requires_compatibilities,
        container_definitions,
    }
}

} // verus!
