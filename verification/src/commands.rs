//! The commands of the bot: how each is advertised, and the options that come
//! with an invocation.

pub mod id;
pub mod set_target;
pub mod start;
pub mod stop;

use vstd::prelude::*;

verus! {

/// The type of a command parameter.
#[derive(Clone, Copy, Debug, PartialEq, Eq, Structural)]
pub enum ParameterKind {
    String,
    Integer,
    Boolean,
    User,
    Channel,
    Role,
}

/// One parameter of a command, as it is advertised.
#[derive(Debug, PartialEq, Eq)]
pub struct ParameterSpec {
    pub name: String,
    pub description: String,
    pub kind: ParameterKind,
    pub required: bool,
}

/// A command as it is advertised: its name, what it is for, and its
/// parameters in order.
#[derive(Debug, PartialEq, Eq)]
pub struct CommandDescriptor {
    pub name: String,
    pub description: String,
    pub parameters: Vec<ParameterSpec>,
}

/// A parameter as a mathematical value.
pub ghost struct ParameterSpecView {
    pub name: Seq<char>,
    pub description: Seq<char>,
    pub kind: ParameterKind,
    pub required: bool,
}

/// A descriptor as a mathematical value.
pub ghost struct CommandDescriptorView {
    pub name: Seq<char>,
    pub description: Seq<char>,
    pub parameters: Seq<ParameterSpecView>,
}

impl View for ParameterSpec {
    type V = ParameterSpecView;

    open spec fn view(&self) -> ParameterSpecView {
        ParameterSpecView {
            name: self.name@,
            description: self.description@,
            kind: self.kind,
            required: self.required,
        }
    }
}

impl View for CommandDescriptor {
    type V = CommandDescriptorView;

    open spec fn view(&self) -> CommandDescriptorView {
        CommandDescriptorView {
            name: self.name@,
            description: self.description@,
            parameters: self.parameters@.map_values(|parameter: ParameterSpec| parameter@),
        }
    }
}

/// The value that the platform resolved for an option.
#[derive(Debug, PartialEq, Eq)]
pub enum OptionValue {
    /// A user, with the identifier, the name and the number that tells users
    /// of one name apart.
    User { id: u64, name: String, discriminator: u16 },
    /// A text.
    String(String),
    /// A whole number.
    Integer(i64),
    /// A truth value.
    Boolean(bool),
    /// A value of a type that no command of this bot reads.
    Other,
}

/// One option of an invocation: its name and, if the platform resolved one,
/// its value.
#[derive(Debug, PartialEq, Eq)]
pub struct CommandOption {
    pub name: String,
    pub resolved: Option<OptionValue>,
}

/// An option value as a mathematical value.
pub ghost enum OptionValueView {
    User { id: u64, name: Seq<char>, discriminator: u16 },
    String(Seq<char>),
    Integer(i64),
    Boolean(bool),
    Other,
}

/// An option as a mathematical value.
pub ghost struct CommandOptionView {
    pub name: Seq<char>,
    pub resolved: Option<OptionValueView>,
}

impl View for OptionValue {
    type V = OptionValueView;

    open spec fn view(&self) -> OptionValueView {
        match *self {
            OptionValue::User { id, name, discriminator } => OptionValueView::User {
                id,
                name: name@,
                discriminator,
            },
            OptionValue::String(text) => OptionValueView::String(text@),
            OptionValue::Integer(number) => OptionValueView::Integer(number),
            OptionValue::Boolean(truth) => OptionValueView::Boolean(truth),
            OptionValue::Other => OptionValueView::Other,
        }
    }
}

impl View for CommandOption {
    type V = CommandOptionView;

    open spec fn view(&self) -> CommandOptionView {
        CommandOptionView {
            name: self.name@,
            resolved: match self.resolved {
                Some(value) => Some(value@),
                None => None,
            },
        }
    }
}

/// The options of an invocation as mathematical values, in their order.
pub open spec fn option_views(options: Seq<CommandOption>) -> Seq<CommandOptionView> {
    options.map_values(|option: CommandOption| option@)
}

/// The descriptors of a list as mathematical values, in their order.
pub open spec fn descriptor_views(descriptors: Seq<CommandDescriptor>) -> Seq<CommandDescriptorView> {
    descriptors.map_values(|descriptor: CommandDescriptor| descriptor@)
}

/// What is wrong with the options of an invocation.
#[derive(Clone, Copy, Debug, PartialEq, Eq, Structural)]
pub enum MalformedInput {
    /// The required option is not there.
    MissingOption,
    /// The option is there, but the platform resolved no value for it.
    UnresolvedOption,
    /// The option's value is of another type than the command needs.
    WrongType,
}

/// A descriptor of a command without parameters.
pub open spec fn plain_descriptor(name: Seq<char>, description: Seq<char>) -> CommandDescriptorView {
    CommandDescriptorView { name, description, parameters: Seq::<ParameterSpecView>::empty() }
}

/// Builds the descriptor of a command without parameters.
pub fn describe_plain(name: &str, description: &str) -> (descriptor: CommandDescriptor)
    ensures
        descriptor@ == plain_descriptor(name@, description@),
{
    let descriptor = CommandDescriptor {
        name: name.to_owned(),
        description: description.to_owned(),
        parameters: Vec::new(),
    };
    assert(descriptor@.parameters =~= Seq::<ParameterSpecView>::empty());
    descriptor
}

} // verus!
