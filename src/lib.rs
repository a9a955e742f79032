//! Core logic of a GraphQL gateway in front of REST microservices: global
//! object identifiers, cursor pagination, line pricing and the shaping of
//! outbound requests.
pub mod buy_now;
pub mod cart;
pub mod decimal;
pub mod delivery;
pub mod dispatch;
pub mod error;
pub mod id;
pub mod models;
pub mod pagination;
pub mod pricing;
pub mod server;
pub mod services;
