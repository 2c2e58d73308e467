//! A small weather-lookup library: parse a location from command-line
//! arguments, build the request URL for the weather API, classify the
//! HTTP status of the response, and render the user-facing text.
//!
//! The network call itself and the JSON decoding sit outside the
//! library; everything the program decides or formats is here, with a
//! contract.

pub mod location;
pub mod response;
pub mod status;
pub mod url;
