//! Bootstrap logic for an editor's Emmet language-server plugin.
//!
//! Given one initialization request, the library decides where the language
//! server comes from (a user override, or the plugin's own install directory),
//! whether the current platform is supported, and whether the server package
//! has to be installed first. The host performs the outside work (platform
//! queries, subprocesses, the launch itself); the library holds the decisions.

pub mod config;
pub mod json;
pub mod laws;
pub mod location;
pub mod notify;
pub mod pipeline;
pub mod platform;

pub use config::ServerOverride;
pub use json::JsonMember;
pub use location::DocFilter;
pub use notify::Level;
pub use notify::Notice;
pub use pipeline::Command;
pub use pipeline::Event;
pub use pipeline::LaunchPlan;
pub use pipeline::Phase;
pub use pipeline::StepResult;
pub use pipeline::UriOrigin;
pub use json::JsonValue;
pub use platform::Arch;
pub use platform::Os;
pub use platform::PlatformInfo;
