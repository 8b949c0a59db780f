//! Core mini-app support: manifests and their header comments, the
//! capability catalog, the permission model and its store, the app
//! registry, the built-in apps, and the decisions the host-service broker
//! makes for each request.

pub mod text;
pub mod permission;
pub mod capabilities;
pub mod catalog_laws;
pub mod maps;
pub mod manifest;
pub mod registry;
pub mod clock;
pub mod store;
pub mod store_laws;
pub mod header;
pub mod builtin;
pub mod broker;
pub mod broker_laws;
pub mod dock;
pub mod screen;
pub mod hosts;
