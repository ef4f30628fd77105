//! A continuous-deployment agent's decision logic: repository references,
//! workspace naming, build-manifest detection, build planning and the
//! commit-polling state machine.

pub mod text;
pub mod repository;
pub mod workspace;
pub mod config;
pub mod project;
pub mod detect;
pub mod watcher;
