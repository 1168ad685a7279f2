# hako_server

Deployment definitions for one-shot ECS tasks, verified with Verus.

- `src/definition.rs`: the definition of an application (main container,
  sidecars, scheduler parameters) and its defaults.
- `src/keyed_map.rs`: the insertion-ordered string-keyed map that holds
  environment variables, labels, log options and sidecars.
- `src/ecs.rs`: the task definition registration request, and the ECS
  model's reading of network modes, compatibilities and log drivers.
- `src/task_definition.rs`: the task definition built for a one-shot run.
- `src/keys.rs`: the S3 keys under which revisions and definitions are
  published, and the contents of the object naming the current revision.
- `src/upload.rs`: which files are definitions and which application each
  one defines.
- `src/deploy.rs`: the deployment service as a state machine from call
  outcomes to the next call or the answer.
- `src/laws.rs`: properties across these functions.
- `src/text.rs`: character-level string operations.

`app/` holds the command line tool, the S3 and ECS calls, the Jsonnet
evaluation, the JSON decoding of definitions and the gRPC server.
