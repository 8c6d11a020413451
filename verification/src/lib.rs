//! Session-token lifecycle for a small school/blog backend.
//!
//! The library issues, validates, refreshes and revokes session tokens.
//! A session is one short-lived auth token and one long-lived refresh token.
//! All session state lives in a string-keyed store holding two relations:
//! `user_id -> token pair` (the current session record) and
//! `token string -> user_id` (reverse indices for O(1) authentication).

pub mod article_entity;

pub mod auth;

pub mod backend_config;

pub mod fenster_error;

pub mod store;

pub mod token_entity;

pub mod user_entity;
