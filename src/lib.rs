//! Core of a local HTTP capture server: the request record and its
//! decoding rules, the request log, the operator-controlled response
//! profile, and the decisions of the listener's port supervisor.

pub mod capture;
pub mod filename;
pub mod laws;
pub mod log;
pub mod port;
pub mod profile;
pub mod record;
pub mod text;

pub use profile::ResponseConfig;
pub use record::HttpRequest;
