use vstd::prelude::*;

pub mod text;
pub mod types;
pub mod mod_state;
pub mod error;
pub mod archive;
pub mod config;
pub mod catalog;
pub mod games;
pub mod staging;
pub mod sync_manager;
pub mod folder_sync;
pub mod ui;
pub mod nexus;
pub mod repository;
pub mod registry;
pub mod setup;
pub mod laws;
pub mod answer_laws;
pub mod browser;
pub mod moda_app;
