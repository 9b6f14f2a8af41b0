//! Launching an application by its bundle identifier.
use vstd::prelude::*;

use crate::text::chars_of;
use crate::text::joined;
use crate::text::string_of;
use crate::text::trim;
#[allow(unused_imports)]
use crate::text::trim_seq;

verus! {

/// A program to run, with its arguments.
pub struct LaunchCommand {
    pub program: &'static str,
    pub option: &'static str,
    pub bundle_id: String,
}

/// The command that launches the application with a bundle identifier, read without the white
/// space around it. A blank identifier is refused.
pub fn launch_app_bundle(bundle_id: &str) -> (command: Result<LaunchCommand, String>)
    ensures
        match command {
            Ok(command) => {
                &&& trim_seq(bundle_id@).len() > 0
                &&& command.program@ == "open"@
                &&& command.option@ == "-b"@
                &&& command.bundle_id@ == trim_seq(bundle_id@)
            },
            Err(message) => {
                &&& trim_seq(bundle_id@).len() == 0
                &&& message@ == "Bundle ID cannot be empty."@
            },
        },
{
    let id = trim(&chars_of(bundle_id));
    if id.len() == 0 {
        return Err("Bundle ID cannot be empty.".to_owned());
    }
    Ok(LaunchCommand { program: "open", option: "-b", bundle_id: string_of(&id) })
}

/// The message for a launch that failed.
pub fn launch_failure(bundle_id: &str, error: &str) -> (message: String)
    ensures
        message@ == "Failed to launch "@ + bundle_id@ + ": "@ + error@,
{
    let named = joined("Failed to launch ", bundle_id);
    let introduced = joined(named.as_str(), ": ");
    joined(introduced.as_str(), error)
}

} // verus!
