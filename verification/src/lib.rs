//! Tagged request dispatch and per-domain annotation pipelines.

pub mod backend;
pub mod chars;
pub mod checksum;
pub mod command_engine;
pub mod command_handler;
pub mod handler;
pub mod ldap_engine;
pub mod ldap_handler;
pub mod memory_engine;
pub mod memory_handler;
pub mod middlewares;
pub mod path_engine;
pub mod path_handler;
pub mod pipeline;
pub mod redirect_engine;
pub mod redirect_handler;
pub mod report;
pub mod scripts;
pub mod sql_engine;
pub mod sql_handler;
pub mod ssrf_engine;
pub mod ssrf_handler;
pub mod text;
pub mod xpath_engine;
pub mod xpath_handler;
