//! Typed bindings for cluster resource kinds whose wire schema departs from
//! the usual metadata/spec/status layout, with a verified presence policy
//! for each of their fields.
#![allow(non_snake_case, non_camel_case_types)]

pub mod wire;
pub mod fields;
pub mod bytes;
pub mod maps;
pub mod meta;
pub mod reference;
pub mod event;
pub mod secret;
pub mod config_map;
pub mod api;
pub mod laws;
