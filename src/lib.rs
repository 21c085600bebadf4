pub mod cloudflare;
pub mod domain;
pub mod reply;
pub mod report;
pub mod ydns;
pub mod config;
