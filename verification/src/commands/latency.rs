//! `/latency`: reports how long the chat service takes to answer.
use vstd::prelude::*;
use crate::text::{decimal, decimal_string};

use crate::commands::builder::{CommandSpec, command_shape};
verus! {

/// The gateway part of the report: the latency in milliseconds where one is
/// known and above zero, else a note that there is none.
pub open spec fn gateway_text(gateway_ms: Option<u128>) -> Seq<char> {
    match gateway_ms {
        Some(ms) => if ms > 0 {
            decimal(ms as nat) + "ms"@
        } else {
            "No data avaliable at the moment."@
        },
        None => "No data avaliable at the moment."@,
    }
}

/// The full report.
pub open spec fn latency_message(rest_ms: u128, gateway_ms: Option<u128>) -> Seq<char> {
    "Pong! :ping_pong:\n\nREST latency: "@ + decimal(rest_ms as nat) + "ms\nGateway latency: "@
        + gateway_text(gateway_ms)
}

/// Writes the report from the measured REST round trip and the gateway
/// latency of the shard, `None` where the shard's runner is not known.
pub fn run(rest_ms: u128, gateway_ms: Option<u128>) -> (message: String)
    ensures
        message@ == latency_message(rest_ms, gateway_ms),
{
    let mut message = String::from_str("Pong! :ping_pong:\n\nREST latency: ");
    let rest = decimal_string(rest_ms);
    message.append(rest.as_str());
    message.append("ms\nGateway latency: ");
    match gateway_ms {
        Some(ms) => {
            if ms > 0 {
                let g = decimal_string(ms);
                message.append(g.as_str());
                message.append("ms");
            } else {
                message.append("No data avaliable at the moment.");
            }
        },
        None => message.append("No data avaliable at the moment."),
    }
    message
}

/// Whether a command description is that of `/latency`.
pub open spec fn is_latency_command(c: CommandSpec) -> bool {
    &&& command_shape(c, "latency"@, "Sends gateway and REST latency values."@, 0)
}

/// The description of the command.
pub fn register() -> (c: CommandSpec)
    ensures
        is_latency_command(c),
{
    CommandSpec::new("latency").description("Sends gateway and REST latency values.")
}

} // verus!
