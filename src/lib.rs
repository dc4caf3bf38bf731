//! Command orchestration, configuration handling and output classification
//! for a command-line front end to Helmfile, Helm and kubectl.

pub mod classify;
pub mod cli;
pub mod command;
pub mod config;
pub mod drive;
pub mod outside;
pub mod plan;
pub mod safety;
pub mod text;
