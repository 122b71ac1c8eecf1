//! The logic of the `atlas_local` Python library for MongoDB Atlas Local
//! deployments: checking the options a deployment is created, started or
//! read with; deciding whether an existing deployment can be reused; and the
//! Python exceptions that report each failure.

pub mod models;
pub mod outside;
pub mod python_error;
pub mod option_conflicts;
pub mod start;
pub mod create_deployment_options;
pub mod logs;
pub mod deployment;
pub mod get_or_create;
