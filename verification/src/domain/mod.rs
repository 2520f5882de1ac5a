//! The values a call request is made of.

pub mod call_request;
