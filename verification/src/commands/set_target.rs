//! The command `set_target`: follows the user given as its one option.

use crate::commands::{
    option_views, CommandDescriptor, CommandDescriptorView, CommandOption, CommandOptionView,
    MalformedInput, OptionValue, OptionValueView, ParameterKind, ParameterSpec, ParameterSpecView,
};
use crate::target::TargetState;
use crate::text::zero_padded;
use vstd::prelude::*;
use vstd::string::*;

verus! {

/// The display name of a user: the name, a number sign, and the
/// discriminator in at least four digits.
pub open spec fn display_name(name: Seq<char>, discriminator: u16) -> Seq<char> {
    name + seq!['#'] + zero_padded(discriminator as nat, 4)
}

/// The user that an invocation names, by identifier and display name: the
/// value of its first option, which has to be a resolved user.
pub open spec fn requested_user(options: Seq<CommandOptionView>) -> Result<
    (u64, Seq<char>),
    MalformedInput,
> {
    if options.len() == 0 {
        Err(MalformedInput::MissingOption)
    } else {
        match options[0].resolved {
            None => Err(MalformedInput::UnresolvedOption),
            Some(OptionValueView::User { id, name, discriminator }) => Ok(
                (id, display_name(name, discriminator)),
            ),
            Some(_) => Err(MalformedInput::WrongType),
        }
    }
}

/// The reply that confirms whom the bot follows now. It ends in the user's
/// display name.
pub open spec fn confirmation(tag: Seq<char>) -> Seq<char> {
    "Слежу за "@ + tag
}

/// The reply to an invocation that names no user.
pub open spec fn refusal() -> Seq<char> {
    "Please provide a valid user"@
}

/// The command as it is advertised.
pub open spec fn descriptor() -> CommandDescriptorView {
    CommandDescriptorView {
        name: "set_target"@,
        description: "Погавари са мной"@,
        parameters: seq![
            ParameterSpecView {
                name: "id"@,
                description: "С кем гаварить?"@,
                kind: ParameterKind::User,
                required: true,
            },
        ],
    }
}

/// The display name of a user, as `User::tag` of serenity writes it. That
/// function puts the name, a number sign and the discriminator, formatted to
/// a width of four with leading zeros, into one string; the contract says so
/// and is not proved here.
#[verifier::external_body]
fn user_tag(name: &str, discriminator: u16) -> (tag: String)
    ensures
        tag@ == display_name(name@, discriminator),
{
    let mut user = serenity::model::user::User::default();
    user.name = name.to_owned();
    user.discriminator = discriminator;
    user.tag()
}

/// Reads the user that an invocation names: the identifier and the display name.
pub fn resolve(options: &[CommandOption]) -> (result: Result<(u64, String), MalformedInput>)
    ensures
        match requested_user(option_views(options@)) {
            Ok((id, tag)) => result matches Ok(found) && found.0 == id && found.1@ == tag,
            Err(error) => result == Err::<(u64, String), MalformedInput>(error),
        },
{
    if options.len() == 0 {
        return Err(MalformedInput::MissingOption);
    }
    assert(option_views(options@)[0] == options@[0]@);
    match &options[0].resolved {
        None => Err(MalformedInput::UnresolvedOption),
        Some(OptionValue::User { id, name, discriminator }) => Ok(
            (*id, user_tag(name.as_str(), *discriminator)),
        ),
        Some(_) => Err(MalformedInput::WrongType),
    }
}

/// Runs the command. Where the invocation names a user, that user is followed
/// from now on and the reply confirms it by the user's display name. Otherwise
/// the followed user stays, and the reply asks for a valid user.
pub fn run(options: &[CommandOption], target: &mut TargetState) -> (reply: String)
    ensures
        match requested_user(option_views(options@)) {
            Ok((id, tag)) => final(target)@ == id && reply@ == confirmation(tag),
            Err(_) => final(target)@ == old(target)@ && reply@ == refusal(),
        },
{
    match resolve(options) {
        Ok((id, tag)) => {
            target.set(id);
            let mut reply = String::from_str("Слежу за ");
            reply.append(tag.as_str());
            reply
        },
        Err(_) => String::from_str("Please provide a valid user"),
    }
}

/// Describes the command for registration.
pub fn register() -> (command: CommandDescriptor)
    ensures
        command@ == descriptor(),
{
    let mut parameters: Vec<ParameterSpec> = Vec::new();
    parameters.push(
        ParameterSpec {
            name: String::from_str("id"),
            description: String::from_str("С кем гаварить?"),
            kind: ParameterKind::User,
            required: true,
        },
    );
    let command = CommandDescriptor {
        name: String::from_str("set_target"),
        description: String::from_str("Погавари са мной"),
        parameters,
    };
    assert(command@.parameters =~= descriptor().parameters);
    command
}

/// The confirmation ends in the display name of the user that is followed,
/// and the display name begins with the user's name.
pub proof fn law_confirmation_names_user(name: Seq<char>, discriminator: u16)
    ensures
        display_name(name, discriminator).is_suffix_of(
            confirmation(display_name(name, discriminator)),
        ),
        name.is_prefix_of(display_name(name, discriminator)),
{
}

} // verus!
