//! A typed client library for the HTTP API of a Jenkins server.
//!
//! An endpoint description says what to call, a transport says how the call
//! travels, and a query binds the two and reads the answer, as raw text or
//! decoded into a shape. The three are independent of each other.

pub mod client;
pub mod decode;
pub mod endpoint;
pub mod error;
pub mod json;
pub mod query;
pub mod types;

pub use client::conclude;
pub use client::ClientConfig;
pub use client::HttpOutcome;
pub use client::HttpRequest;
pub use client::SyncClient;
pub use client::ACCEPT_INVALID_CERTS;
pub use client::DETECT_PROXY;
pub use decode::decode_response;
pub use decode::FromJson;
pub use endpoint::builds::form_text;
pub use endpoint::builds::ConsoleText;
pub use endpoint::builds::StopBuild;
pub use endpoint::builds::TriggerBuild;
pub use endpoint::executors::ExecutorsInfoEndpoint;
pub use endpoint::jobs::JobsInfo;
pub use endpoint::queue::QueueLength;
pub use endpoint::Endpoint;
pub use error::DecodeError;
pub use error::JenkinsError;
pub use query::Query;
pub use query::RawQuery;
pub use types::jobs_from_value;
pub use types::ExecutorsInfo;
pub use types::Job;
