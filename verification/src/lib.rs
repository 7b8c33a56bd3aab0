//! Client-side logic for a crates.io-style package-registry API.
//!
//! The crate covers the request/pagination/rate-limiting pipeline of such a
//! client: building endpoint URLs, classifying HTTP outcomes, deciding between
//! an API-reported error and a schema mismatch when decoding a response body,
//! joining reverse-dependency wire data, paginating listing endpoints both
//! eagerly and lazily, and pacing request starts.
//!
//! The crate itself performs no I/O: a host program executes HTTP requests and
//! parses JSON bodies, and hands the resulting plain values to the functions
//! here, which make every decision and carry their contracts.

pub mod error;
pub mod types;
pub mod rdeps;
pub mod text;
pub mod decode;
pub mod urls;
pub mod helper;
pub mod query;
pub mod limiter;
pub mod pagination;
pub mod client;
