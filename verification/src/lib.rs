//! Verified logic behind the native Envoix bindings.
#![allow(unused_imports)]

pub mod api;
pub mod bridge;
pub mod clock;
pub mod common;
pub mod hex;
pub mod logging;
pub mod paths;
pub mod text;
pub mod text_map;
pub mod tokens;
