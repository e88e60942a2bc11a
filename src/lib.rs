//! Core logic of a recipe service and of a nutrient tracker.
//!
//! The recipe side holds the stored recipe model and its builder, request
//! validation and search planning, the weekly-recipe cache policy, bearer
//! token checks, and the rules that derive JSON API responses from the
//! variants of a response enum and their attributes. The tracker side holds
//! the names and aliases by which nutrients are looked up.

pub mod api_enum;
pub mod api_result;
pub mod attributes;
pub mod auth;
pub mod collection;
pub mod date;
pub mod environment;
pub mod full_recipe;
pub mod ids;
pub mod method;
pub mod nutrient;
pub mod panes;
pub mod quiz;
pub mod recipe;
pub mod request;
pub mod response;
pub mod search;
pub mod status;
pub mod tabs;
pub mod template;
pub mod text;
pub mod tracker;
pub mod types;
pub mod weekly;
pub mod world;
