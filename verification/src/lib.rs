//! Request decoding and response encoding for the fatcat catalog API server:
//! the route table, the reading of path, query and body parameters, and the
//! replies sent for each outcome of an operation.

pub mod operation;
pub mod percent;
pub mod foreign;
pub mod request;
pub mod response;
pub mod middleware;
pub mod route_laws;
pub mod request_laws;
pub mod table_laws;
