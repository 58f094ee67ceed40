//! Road-surface telemetry pipeline: the domain model of sensor records, the
//! edge classifier, the hub batcher, and the store's request, response and
//! fan-out rules.

pub mod agent;
pub mod config;
pub mod convenience;
pub mod domain;
pub mod edge;
pub mod grpc;
pub mod http;
pub mod hub;
pub mod model;
pub mod proto;
pub mod text;
pub mod ws;
