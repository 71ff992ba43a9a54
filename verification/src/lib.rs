//! Verified core of the aerolithsDB command-line client, cache and API layers.
pub mod text;
pub mod json;
pub mod format;
pub mod tui_app;
pub mod tui_classic;
pub mod integration;
pub mod saas;
pub mod stats;
pub mod args;
pub mod reports;
pub mod glob;
pub mod listing;
pub mod config_tools;
pub mod batch_ops;
pub mod api;
pub mod payments;
pub mod saas_service;
pub mod rest_api;
pub mod graphql_api;
pub mod cache;
pub mod wallet;
pub mod documents;
pub mod mocks;
