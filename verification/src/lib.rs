//! Dynamic DNS client core: change detection and provider update dispatch.

pub mod api_client;
pub mod arg_parser;
pub mod collect;
pub mod dispatcher;
pub mod error;
pub mod ip_checker;
pub mod ipv4;
pub mod logging;
pub mod protocol;
pub mod text;
pub mod time_tools;
pub mod yaml;
