//! `/set`: the subcommands that set an option of the server.
use vstd::prelude::*;
use crate::commands::{ChannelInfo, CommandOption, OptionValue};

pub mod channel;
pub mod set_interval;

use crate::commands::builder::{CommandSpec, OptionKind, OptionSpec, command_shape, option_shape};
verus! {

/// Where the command goes on.
#[derive(Debug, Clone, PartialEq, Eq)]
pub enum SetRoute {
    /// Answer at once with this text.
    Reply(String),
    /// Run `/set channel` for this channel.
    Channel(ChannelInfo),
    /// Run `/set interval` with this number.
    Interval(i64),
}

/// The route as a mathematical value.
pub enum SetRouteView {
    Reply(Seq<char>),
    Channel(ChannelInfo),
    Interval(i64),
}

/// Where the command goes on, from its options.
pub open spec fn set_route(options: Seq<CommandOption>) -> SetRouteView {
    match options[0].value {
        OptionValue::SubCommand(values) => if options[0].name@ == "channel"@ {
            match values@[0].value {
                OptionValue::Channel(c) => SetRouteView::Channel(c),
                _ => SetRouteView::Reply("Mention a channel to set."@),
            }
        } else if options[0].name@ == "interval"@ {
            match values@[0].value {
                OptionValue::Integer(n) => SetRouteView::Interval(n),
                _ => SetRouteView::Reply("Mention a channel to set."@),
            }
        } else {
            SetRouteView::Reply("Sub command not found."@)
        },
        _ => SetRouteView::Reply("Enter subcommand."@),
    }
}

/// A route as a mathematical value.
pub open spec fn route_view(r: SetRoute) -> SetRouteView {
    match r {
        SetRoute::Reply(s) => SetRouteView::Reply(s@),
        SetRoute::Channel(c) => SetRouteView::Channel(c),
        SetRoute::Interval(n) => SetRouteView::Interval(n),
    }
}

/// Whether the command reads a value of a subcommand where the user gave
/// none (the inputs on which it has no answer).
pub open spec fn set_misses_value(options: Seq<CommandOption>) -> bool {
    &&& options[0].value matches OptionValue::SubCommand(values)
    &&& (options[0].name@ == "channel"@ || options[0].name@ == "interval"@)
    &&& values.len() == 0
}

/// Picks the subcommand and reads its value.
pub fn run(options: &Vec<CommandOption>) -> (r: SetRoute)
    requires
        options.len() > 0,
        !set_misses_value(options@),
    ensures
        route_view(r) == set_route(options@),
{
    let sub_command = &options[0];
    let values = match &sub_command.value {
        OptionValue::SubCommand(values) => values,
        _ => return SetRoute::Reply(String::from_str("Enter subcommand.")),
    };
    let channel_name = String::from_str("channel");
    let interval_name = String::from_str("interval");
    if sub_command.name == channel_name {
        match &values[0].value {
            OptionValue::Channel(c) => SetRoute::Channel(*c),
            _ => SetRoute::Reply(String::from_str("Mention a channel to set.")),
        }
    } else if sub_command.name == interval_name {
        match &values[0].value {
            OptionValue::Integer(n) => SetRoute::Interval(*n),
            _ => SetRoute::Reply(String::from_str("Mention a channel to set.")),
        }
    } else {
        SetRoute::Reply(String::from_str("Sub command not found."))
    }
}

/// Whether a command description is that of `/set`.
pub open spec fn is_set_command(c: CommandSpec) -> bool {
    &&& command_shape(c, "set"@, "Set an option."@, 2)
    &&& option_shape(c.options@[0], OptionKind::SubCommand, "channel"@, "Set feed updates channel."@, false, false, None, None, 1)
    &&& option_shape(c.options@[0].sub_options@[0], OptionKind::Channel, "channel"@, "Channel to send feed updates."@, true, false, None, None, 0)
    &&& option_shape(c.options@[1], OptionKind::SubCommand, "interval"@, "Test"@, false, false, None, None, 1)
    &&& option_shape(c.options@[1].sub_options@[0], OptionKind::Integer, "hours"@, "hours"@, true, false, Some(1i64), Some(24i64), 0)
}

/// The description of the command.
pub fn register() -> (c: CommandSpec)
    ensures
        is_set_command(c),
{
    CommandSpec::new("set")
        .description("Set an option.")
        .add_option(
            OptionSpec::new(OptionKind::SubCommand, "channel", "Set feed updates channel.")
                .add_sub_option(
                    OptionSpec::new(OptionKind::Channel, "channel", "Channel to send feed updates.").required(true),
                ),
        )
        .add_option(
            OptionSpec::new(OptionKind::SubCommand, "interval", "Test")
                .add_sub_option(
                    OptionSpec::new(OptionKind::Integer, "hours", "hours")
                        .min_int_value(1)
                        .max_int_value(24)
                        .required(true),
                ),
        )
}

} // verus!
