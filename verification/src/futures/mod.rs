//! The futures market: its REST records and its user-data stream.

pub mod rest_model;
pub mod ws_model;
