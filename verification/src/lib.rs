//! Order pre-check logic for the trailer-loading consumer: message decoding,
//! query composition, shipment aggregation and the order-processing workflow.
#![allow(non_snake_case)]

pub mod error;
pub mod messages;
pub mod models;
pub mod queries;
pub mod shipment;
pub mod supervisor;
pub mod text;
pub mod timestamps;
pub mod workflow;
