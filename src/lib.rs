//! Feed aggregation, bearer-token authentication and content-addressed
//! saving of items, with the rules stated and proved by Verus.
pub mod account;
pub mod auth;
pub mod error;
pub mod persist;
pub mod post;
pub mod render;
pub mod text;
