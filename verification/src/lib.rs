//! A minimal HTTP file server core: it decodes a percent-encoded request
//! path, resolves it against a configured root directory, decides among
//! serving a file, rendering a directory listing, redirecting, or reporting
//! an error, and builds the corresponding response.
//!
//! The surrounding binary owns the transport and the filesystem: it probes
//! the filesystem, hands the results in as plain values, and sends the
//! responses built here back over the wire.

pub mod decode;
pub mod listing;
pub mod order;
pub mod response;
pub mod route;
pub mod templates;

pub use response::Body;
pub use response::Response;
