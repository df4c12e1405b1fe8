//! A command bridge between a desktop shell's interface layer and the host.
//!
//! The bridge offers three independent operations: it hands out the runtime
//! configuration, reports whether the backend is healthy, and decides how the
//! host opens a link with the user's default handler. No operation keeps
//! state between calls, so every answer is determined by the arguments alone.

use vstd::prelude::*;

pub mod config;
pub mod health;
pub mod link;
pub mod registry;

pub use config::{get_app_config, AppConfig, AppConfigView};
pub use health::check_backend_health;
pub use link::{
    link_result, open_external_link, LaunchCommand, LaunchCommandView, Platform, SpawnOutcome,
};
pub use registry::Operation;

verus! {

/// Each operation answers from its own arguments alone. Whatever two calls
/// of one operation return for the same arguments is the same: two
/// configuration records agree, two health reports agree, and two commands
/// planned for one link on one platform agree.
pub proof fn lemma_answers_are_determined(
    platform: Platform,
    url: Seq<char>,
    first_config: AppConfig,
    first_health: Result<bool, String>,
    first_command: LaunchCommand,
    second_config: AppConfig,
    second_health: Result<bool, String>,
    second_command: LaunchCommand,
)
    requires
        first_config@ == config::default_config(),
        second_config@ == config::default_config(),
        first_health == Ok::<bool, String>(true),
        second_health == Ok::<bool, String>(true),
        first_command@ == link::launch_plan(platform, url),
        second_command@ == link::launch_plan(platform, url),
    ensures
        first_config@ == second_config@,
        first_health == second_health,
        first_command@ == second_command@,
{
}

} // verus!
