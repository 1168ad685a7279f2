//! Deployment definitions for one-shot ECS tasks: the definition model, the
//! task definition built from it, the object keys under which definitions are
//! published, and the decisions of the one-shot deployment service.

pub mod text;
pub mod keyed_map;
pub mod definition;
pub mod ecs;
pub mod task_definition;
pub mod keys;
pub mod upload;
pub mod deploy;
pub mod laws;
pub mod build_laws;
pub mod text_laws;
