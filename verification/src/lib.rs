//! Client-side logic for the RIS Live route stream: the message schema, the
//! subscribe request and its JSON text, the decoding of inbound frames with
//! their defaults, and the decisions of the forwarding loop.

pub mod error;
pub mod json;
pub mod schema;
pub mod encode;
pub mod decode;
pub mod client;
pub mod forward;

pub use client::{RisClient, Subscription};
pub use decode::{decode_frame, decode_nodes, is_blank_frame, FrameOutcome, ResponseNodes};
pub use encode::{assemble_filter, assemble_request, FilterLiterals};
pub use error::RisError;
pub use forward::{forward_frames, on_delivery, on_event, Forwarded, StreamAction, StreamEvent};
pub use json::JsonNode;
pub use schema::{
    default_timestamp, default_unknown_string, RisRequest, RisRequestData, RisResponse,
    RisResponseData,
};
