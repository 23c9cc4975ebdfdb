//! Weather forecast documents: a tolerant decoder from a JSON tree, the
//! extraction of time-labelled observations, and their text renderings.

pub mod json;
pub mod model;
pub mod notify;
pub mod report;
pub mod summary;
pub mod text;
pub mod time;

