//! Data model and decision logic of the river map service.

pub mod user;
pub mod json;
pub mod river;
pub mod deletion;
pub mod accounts;
pub mod common;
pub mod field;
pub mod api;
pub mod text;
pub mod map;
pub mod pages;
pub mod track_editor;
pub mod color;
pub mod layer_sync;
pub mod route_editing;
