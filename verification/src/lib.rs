//! A client for a service registry in the style of Netflix Eureka.
//!
//! The library holds the registry's entities, their wire codecs, and the
//! client's requests and verdicts, all of it verified. It opens no
//! connection: the transport belongs to the caller.

pub mod client;
pub mod codec;
pub mod decode;
pub mod encode;
pub mod json;
pub mod laws;
pub mod models;
pub mod registry;
pub mod url;

pub use client::{EurekaClient, EurekaError, Method, Outcome, Request};
pub use codec::DecodeError;
pub use decode::bool_from_string;
pub use json::Json;
pub use models::{
    AmazonMetadataType, DataCenterInfo, DcNameType, Instance, LeaseInfo, PortData,
    RegisterRequest, StatusType,
};
pub use registry::{AppMap, Applications};
