//! Authentication and authorization core of a small blog service: the error
//! taxonomy and its two wire encodings, bearer tokens, credential checks,
//! request-time principal resolution, and the author-only rules on posts.

pub mod text;
pub mod error;
pub mod clock;
pub mod user;
pub mod post;
pub mod token;
pub mod password;
pub mod repository;
pub mod memory;
pub mod auth_service;
pub mod blog_service;
pub mod rpc;
pub mod laws;
