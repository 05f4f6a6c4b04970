//! The daemon-protocol client: requests, responses, the transport's
//! state, and the correlator that matches replies to requests.

pub mod signald;
pub mod signaldrequest;
pub mod signaldresponse;
pub mod signaldsocket;
