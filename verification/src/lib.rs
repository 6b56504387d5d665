//! A scheduled digest generator: it slices a ranked list of content items
//! to each subscriber's quota, renders the digest from a template, and
//! prepares one envelope per subscriber for delivery.

pub mod config;
pub mod fetch;
pub mod mail;
pub mod pipeline;
pub mod post;
pub mod render;
pub mod store;
pub mod text;
