//! Address parsing and expansion on top of libpostal, with the marshalling
//! rules, the error taxonomy and the normalisation policy verified.

pub mod constants;
pub mod text;
pub mod error;
pub mod address;
pub mod parser;
pub mod json;
pub mod api;
