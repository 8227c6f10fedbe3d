//! Request-level decisions of a small TLS-terminating static site: the
//! redirect of plain HTTP to HTTPS, the substitution of branded error pages,
//! the route table, and the selection of the TLS credentials at startup.

pub mod error_pages;
pub mod https;
pub mod response;
pub mod routes;
pub mod tls;
