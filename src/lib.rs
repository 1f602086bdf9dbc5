//! Native side of a small desktop shell: the two commands that its web front
//! end invokes, and the decisions of its one-time startup hook.
pub mod platform;
pub mod startup;

pub use platform::{get_platform, is_tauri, platform_from_target, Platform};
pub use startup::{plan_setup, SetupAction, SetupStep};
