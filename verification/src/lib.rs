//! Verified client logic for marking e-learning course content as completed.
//!
//! The library holds the data model of the upstream REST API, the header and
//! authorization bookkeeping of the HTTP session, the request-path
//! construction, and the traversal that walks enrollments, courses and themes
//! collecting the content items still to be completed. All network I/O lives
//! outside the library; the traversal is driven as a state machine that asks
//! for the next fetch and is handed each fetch's outcome.

pub mod api_client;
pub mod estacio_client;
pub mod paths;
pub mod types;
pub mod walker;
