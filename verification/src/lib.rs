//! Two small HTTP services, reduced to the decisions they make: what each
//! endpoint answers, how an upload proceeds from one form field to the next,
//! and which routes each service publishes and documents.

pub mod response;
pub mod upload;
pub mod exchange;
pub mod greeting;
pub mod service;
