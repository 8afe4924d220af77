pub mod engine;
pub mod error;
pub mod github;
pub mod links;
pub mod slack;
pub mod store;
pub mod text;
pub mod web;
