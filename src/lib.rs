//! A minimal service registry: clients register service instances, discover
//! them by name, deregister them and are told of changes through broadcast
//! notifications; a heartbeat sweep evicts instances that stopped reporting.
//!
//! This crate holds the registry's logic: the stores, the request dispatcher,
//! the payload codec, the outbound mapping and the per-connection state
//! machine. Sockets, tasks, locks and JSON live with the caller.

pub mod codec;
pub mod config;
pub mod custom_error;
pub mod heartbeat;
pub mod inbound;
pub mod laws;
pub mod models;
pub mod monitor;
pub mod outbound;
pub mod registry;
pub mod request;
pub mod response;
pub mod session;

pub use codec::{decode_payload, encode_payload};
pub use config::ServerConfig;
pub use custom_error::{Byte2JsonErr, Json2StructErr, Struct2JsonErr};
pub use heartbeat::HeartbeatStore;
pub use inbound::{inbound_handle, inbound_query, HandleOutcome};
pub use models::{
    InboundHandleBroadcastEvent, InboundHandleEvent, InboundHandleSingleEvent, NewService, RpcKind,
};
pub use monitor::{heartbeat_sweep, HEARTBEAT_TTL_SECS, SWEEP_INTERVAL_SECS};
pub use outbound::{outbound_handle_broad, outbound_handle_resp, outbound_response, OutboundResponse};
pub use registry::ServiceRegistry;
pub use request::{
    DeregistryRequest, DiscoveryRequest, DiscoveryServiceNamesRequest, HeartbeatRequest, InboundRequest,
    RegistryRequest, ServiceCheckRequest,
};
pub use response::{
    AddServiceResponse, DeregistryResponse, DiscoveryResponse, DiscoveryServiceNamesResponse,
    HeartbeatResponse, HeartbeatTimeoutResponse, RegistryResponse, RemoveServiceResponse,
    ServiceCheckResponse,
};
pub use session::{reader_step, ReaderAction, ReaderInput, SessionState};
