//! A TCP reachability probe behind an HTTP endpoint: settings, request
//! validation, admission control and the request pipeline's decisions.

pub mod api;
pub mod config;
pub mod limiter;
pub mod pipeline;
pub mod text;
pub mod validation;
