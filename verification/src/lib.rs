//! Discovery, acquisition and lifecycle rules for Java runtimes on a workstation.

pub mod adoptium;
pub mod archive;
pub mod atomic_write;
pub mod cache;
pub mod checksum;
pub mod detection;
pub mod downloader;
pub mod error;
pub mod install;
pub mod persistence;
pub mod platform;
pub mod priority;
pub mod provider;
pub mod queue;
pub mod selection;
pub mod text;
pub mod types;
pub mod validation;
