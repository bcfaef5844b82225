//! An email confirmation service: a request to confirm an email address is
//! stored, a link with a capability token is mailed to the address, a click
//! on the link confirms the request, and a callback tells the party that
//! asked for it.
//!
//! The crate holds the rules of that protocol: the signature authority
//! ([`signature_service`]), the repository of requests
//! ([`email_confirmation_request_service`]), the request API ([`handler`]),
//! the reactor behind the repository's change stream ([`workflow_reactor`]),
//! and the endpoint behind the mailed link ([`link_click`]).

pub mod callback_endpoint;
pub mod email_confirmation_request;
pub mod email_confirmation_request_service;
pub mod handler;
pub mod handler_params;
pub mod link_click;
pub mod links;
pub mod service_client;
pub mod signature_request;
pub mod signature_service;
pub mod text;
pub mod workflow_reactor;
