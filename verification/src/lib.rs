//! Layered configuration resolution.
//!
//! A configuration is assembled from up to three TOML documents arranged in a
//! filesystem hierarchy: a global default, a per-server override, and a
//! per-portal override. The documents are merged field by field under strict
//! precedence (portal over server over default), and the merged document is
//! then resolved into a fully populated runtime configuration, failing loudly
//! if a required value is absent after merging.

pub mod cfg;
pub mod error;
pub mod load;
pub mod merge;
pub mod paths;
pub mod resolve;
pub mod types;

pub use cfg::BotConfig;
pub use cfg::BotConfigResolved;
pub use cfg::Config;
pub use cfg::Delay;
pub use cfg::DelayConfig;
pub use cfg::DelayResolved;
pub use cfg::DelayValues;
pub use cfg::ProxyConfig;
pub use cfg::RuntimeConfig;
pub use cfg::ServerConfig;
