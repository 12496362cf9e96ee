//! An asynchronous client for the League of Legends web API: the request
//! dispatch layer (rate-limit telemetry, status classification and the single
//! retry on a rate-limit rejection), the endpoint addresses, and the shapes of
//! the records that the API returns.
pub mod dispatch;
pub mod dto;
pub mod endpoint;
pub mod enums;
pub mod error;
pub mod headers;
pub mod options;
pub mod rate_limit;
pub mod text;
pub mod types;
