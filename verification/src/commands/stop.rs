//! The command `stop`: plays the fixed audio source into the active session.

use crate::commands::{describe_plain, plain_descriptor, CommandDescriptor, CommandDescriptorView};
use vstd::prelude::*;

verus! {

/// The command as it is advertised.
pub open spec fn descriptor() -> CommandDescriptorView {
    plain_descriptor("stop"@, "Включить запись"@)
}

/// Describes the command for registration.
pub fn register() -> (command: CommandDescriptor)
    ensures
        command@ == descriptor(),
{
    describe_plain("stop", "Включить запись")
}

} // verus!
