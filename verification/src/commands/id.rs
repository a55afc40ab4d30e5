//! The command `id`: tells the caller their own identifier.

use crate::commands::{describe_plain, plain_descriptor, CommandDescriptor, CommandDescriptorView};
use crate::text::{decimal, render_decimal};
use vstd::prelude::*;

verus! {

/// The command as it is advertised.
pub open spec fn descriptor() -> CommandDescriptorView {
    plain_descriptor("id"@, "Узнать свой идентификатор"@)
}

/// The reply: the caller's identifier in decimal.
pub fn run(caller: u64) -> (reply: String)
    ensures
        reply@ == decimal(caller as nat),
{
    render_decimal(caller as u128)
}

/// Describes the command for registration.
pub fn register() -> (command: CommandDescriptor)
    ensures
        command@ == descriptor(),
{
    describe_plain("id", "Узнать свой идентификатор")
}

} // verus!
