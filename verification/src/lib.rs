//! A local HTTP/WebSocket gateway core: routing, response assembly, dev-server
//! proxy planning and WebSocket tunnel bookkeeping, with machine-checked contracts.

pub mod assembler;
pub mod config;
pub mod gateway;
pub mod headers;
pub mod laws;
pub mod message;
pub mod proxy;
pub mod router;
pub mod scheduler;
pub mod target;
pub mod tunnel;
pub mod upgrade;
pub mod wire;

pub use crate::config::{Builder, GatewayConfig, Scheduling};
pub use crate::headers::HeaderSet;
pub use crate::message::{Asset, LocalRequest, LocalResponse, OutboundResponse, UpstreamResponse};
pub use crate::proxy::{ProxyRequest, Step};
pub use crate::router::RouteDecision;
