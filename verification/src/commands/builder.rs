//! Descriptions of the commands, as they are registered with the chat
//! service: a command has a name, a description and options, and an option
//! may have options of its own.
use vstd::prelude::*;

verus! {

/// The kind of value an option takes.
#[derive(Debug, Clone, Copy, PartialEq, Eq)]
pub enum OptionKind {
    SubCommand,
    String,
    Integer,
    Channel,
}

/// The description of a command option.
#[derive(Debug, PartialEq, Eq)]
pub struct OptionSpec {
    pub kind: OptionKind,
    pub name: String,
    pub description: String,
    pub required: bool,
    pub autocomplete: bool,
    pub min_int: Option<i64>,
    pub max_int: Option<i64>,
    pub sub_options: Vec<OptionSpec>,
}

/// The description of a command.
#[derive(Debug, PartialEq, Eq)]
pub struct CommandSpec {
    pub name: String,
    pub description: String,
    pub options: Vec<OptionSpec>,
}

/// Whether an option has the given kind, name, description, flags and
/// bounds, and `subs` options of its own.
pub open spec fn option_shape(
    o: OptionSpec,
    kind: OptionKind,
    name: Seq<char>,
    description: Seq<char>,
    required: bool,
    autocomplete: bool,
    min_int: Option<i64>,
    max_int: Option<i64>,
    subs: nat,
) -> bool {
    &&& o.kind == kind
    &&& o.name@ == name
    &&& o.description@ == description
    &&& o.required == required
    &&& o.autocomplete == autocomplete
    &&& o.min_int == min_int
    &&& o.max_int == max_int
    &&& o.sub_options@.len() == subs
}

/// Whether a command has the given name and description and `options`
/// options.
pub open spec fn command_shape(c: CommandSpec, name: Seq<char>, description: Seq<char>, options: nat) -> bool {
    &&& c.name@ == name
    &&& c.description@ == description
    &&& c.options@.len() == options
}

impl OptionSpec {
    /// An option that is not required, offers no suggestions, has no bounds
    /// and no options of its own.
    pub fn new(kind: OptionKind, name: &str, description: &str) -> (o: OptionSpec)
        ensures
            option_shape(o, kind, name@, description@, false, false, None, None, 0),
    {
        OptionSpec {
            kind,
            name: String::from_str(name),
            description: String::from_str(description),
            required: false,
            autocomplete: false,
            min_int: None,
            max_int: None,
            sub_options: Vec::new(),
        }
    }

    /// Sets whether the option must be given.
    pub fn required(self, required: bool) -> (o: OptionSpec)
        ensures
            o == (OptionSpec { required, ..self }),
    {
        OptionSpec { required, ..self }
    }

    /// Sets whether suggestions are offered while the value is typed.
    pub fn set_autocomplete(self, autocomplete: bool) -> (o: OptionSpec)
        ensures
            o == (OptionSpec { autocomplete, ..self }),
    {
        OptionSpec { autocomplete, ..self }
    }

    /// Sets the least integer value the option accepts.
    pub fn min_int_value(self, value: i64) -> (o: OptionSpec)
        ensures
            o == (OptionSpec { min_int: Some(value), ..self }),
    {
        OptionSpec { min_int: Some(value), ..self }
    }

    /// Sets the greatest integer value the option accepts.
    pub fn max_int_value(self, value: i64) -> (o: OptionSpec)
        ensures
            o == (OptionSpec { max_int: Some(value), ..self }),
    {
        OptionSpec { max_int: Some(value), ..self }
    }

    /// Appends an option of the option's own.
    pub fn add_sub_option(self, sub: OptionSpec) -> (o: OptionSpec)
        ensures
            o.kind == self.kind,
            o.name == self.name,
            o.description == self.description,
            o.required == self.required,
            o.autocomplete == self.autocomplete,
            o.min_int == self.min_int,
            o.max_int == self.max_int,
            o.sub_options@ == self.sub_options@.push(sub),
    {
        let mut o = self;
        o.sub_options.push(sub);
        o
    }
}

impl CommandSpec {
    /// A command with an empty description and no options.
    pub fn new(name: &str) -> (c: CommandSpec)
        ensures
            command_shape(c, name@, Seq::empty(), 0),
    {
        CommandSpec { name: String::from_str(name), description: String::new(), options: Vec::new() }
    }

    /// Sets the description.
    pub fn description(self, description: &str) -> (c: CommandSpec)
        ensures
            c.name == self.name,
            c.description@ == description@,
            c.options == self.options,
    {
        CommandSpec { description: String::from_str(description), ..self }
    }

    /// Appends an option.
    pub fn add_option(self, option: OptionSpec) -> (c: CommandSpec)
        ensures
            c.name == self.name,
            c.description == self.description,
            c.options@ == self.options@.push(option),
    {
        let mut c = self;
        c.options.push(option);
        c
    }
}

} // verus!
