//! Verified core of a small web framework and the shop back end built on it:
//! path patterns and routing, cookies and sessions, login, access decisions,
//! token bookkeeping, request extraction, and the text that the framework's
//! code generators produce (SQL statements, handler proxies, route
//! registrations, form parsing).

pub mod text;
pub mod assoc;
pub mod runtime;

pub mod path_matcher;
pub mod routing;
pub mod cookie_jar;
pub mod session;
pub mod extract;
pub mod endpoint;
pub mod server;

pub mod entity;
pub mod security;
pub mod access;
pub mod authn;
pub mod jwt;
pub mod transaction;
pub mod web_security;
pub mod wechat;
pub mod config;

pub mod sql_schema;
pub mod codegen;
pub mod route_scan;
pub mod proxy;
pub mod form_values;
