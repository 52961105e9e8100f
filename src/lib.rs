//! Verified core of a document management backend: permission rules, error
//! mapping, upload form handling, storage key layout, folder naming, tag
//! handling, the decisions behind every document route, and start-up
//! settings. Database and object-store access stay with the caller, which
//! hands each function the values it read.

pub mod text;
pub mod ids;
pub mod error;
pub mod models;
pub mod dtos;
pub mod auth;
pub mod login;
pub mod audit;
pub mod metadata;
pub mod folders;
pub mod upload;
pub mod documents;
pub mod tags;
pub mod config;
