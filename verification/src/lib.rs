//! Verified core of the crPipeline document-analysis backend.

pub mod text;
pub mod json;
pub mod pipeline_validation;
pub mod pattern;
pub mod parse;
pub mod report;
pub mod rate_limit;
pub mod middleware;
pub mod upload;
pub mod documents;
pub mod config;
pub mod worker;
pub mod reply;
pub mod admin;
pub mod auth;
pub mod org;
pub mod invites;
pub mod settings;
pub mod pipelines;
pub mod jobs;
pub mod dashboard;
pub mod session;
pub mod email;
pub mod storage;
