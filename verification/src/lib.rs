//! Verified core of the CorTeX web frontend and task dispatcher.
pub mod cache;
pub mod captcha;
pub mod context;
pub mod cors;
pub mod dispatcher;
pub mod pages;
pub mod report;
pub mod strmap;
pub mod text;
pub mod uri;
