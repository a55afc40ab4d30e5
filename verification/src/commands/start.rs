//! The command `start`: joins the configured voice channel.

use crate::commands::{describe_plain, plain_descriptor, CommandDescriptor, CommandDescriptorView};
use vstd::prelude::*;

verus! {

/// The command as it is advertised.
pub open spec fn descriptor() -> CommandDescriptorView {
    plain_descriptor("start"@, "Погавари са мной"@)
}

/// Describes the command for registration.
pub fn register() -> (command: CommandDescriptor)
    ensures
        command@ == descriptor(),
{
    describe_plain("start", "Погавари са мной")
}

} // verus!
