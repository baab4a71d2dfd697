//! Throwaway Docker containers for tests: images and requests to run them, the decisions
//! taken while a container is created, awaited, reached and dropped, docker compose stacks,
//! and the command lines of `docker` and `docker compose`, each with a contract proved by
//! Verus.
pub mod text;
pub mod mounts;
pub mod collections;
pub mod api;
pub mod cli;
pub mod request;
pub mod error;
pub mod host_exposure;
pub mod image;
pub mod ports;
pub mod host_port_mapping;
pub mod env;
pub mod duration;
pub mod wait_for;
pub mod exec;
pub mod healthcheck;
pub mod copy;
pub mod buildable;
pub mod images;
pub mod logs;
pub mod compose;
pub mod config;
pub mod container_request;
pub mod create_config;
pub mod lifecycle;
