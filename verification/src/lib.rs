//! A client-side model of the conversations "channels" endpoint: the shapes a
//! response body can take, and the classifier that sorts a decoded JSON value
//! into exactly one of them.

pub mod classify;
pub mod json;
pub mod model;
