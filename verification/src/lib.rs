//! A verified core for a small query-language HTTP gateway.
//!
//! The library holds the request-dispatch and execution-isolation pipeline:
//! the data model of a query request and of an execution result, a JSON
//! encoder for the wire format of responses, a bounded worker-pool admission
//! model with a saturation policy, the dispatcher that turns decode and
//! execution outcomes into HTTP responses, and the route table. The
//! surrounding process (socket handling, the schema and its resolvers, the
//! connection pool) lives outside and hands the library plain values.

pub mod dispatch;
pub mod json;
pub mod pages;
pub mod pool;
pub mod request;
pub mod result;
pub mod routing;
