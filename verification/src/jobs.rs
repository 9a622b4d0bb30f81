//! Decisions of the long-running jobs around the buses.
//!
//! The output-sink job is the sole consumer of the output bus: it turns each
//! message into one `"[LEVEL] text"` line for the console and the remote
//! gateway, and exits its loop on the terminate sentinel — everything queued
//! before the sentinel is still delivered, being older in the queue.  The
//! console-input job forwards raw console lines into the input bus
//! unchanged; its only decision is made by the shell (keep reading), so it
//! has no logic here.

use vstd::prelude::*;

use crate::io::OutputMessageType;
use crate::io::OutputPacket;

verus! {

/// The level tag inside the brackets of a formatted output line.
pub open spec fn spec_level_label(level: OutputMessageType) -> Seq<char> {
    match level {
        OutputMessageType::Error => "ERROR"@,
        OutputMessageType::Warning => "WARN"@,
        OutputMessageType::Info => "INFO"@,
        OutputMessageType::Debug => "DEBUG"@,
        OutputMessageType::Raw => "MINECRAFT"@,
    }
}

/// The level tag as text; `Raw` lines come from the supervised game server
/// itself and are tagged with its name.
pub fn level_label(level: &OutputMessageType) -> (r: &'static str)
    ensures
        r@ == spec_level_label(*level),
{
    match level {
        OutputMessageType::Error => "ERROR",
        OutputMessageType::Warning => "WARN",
        OutputMessageType::Info => "INFO",
        OutputMessageType::Debug => "DEBUG",
        OutputMessageType::Raw => "MINECRAFT",
    }
}

/// The line the sink emits for a leveled message.
pub open spec fn spec_formatted_line(level: OutputMessageType, message: Seq<char>) -> Seq<char> {
    "["@ + spec_level_label(level) + "] "@ + message
}

/// What the output-sink job does with one packet from the output bus.
#[derive(Clone, Debug)]
pub enum SinkStep {
    /// Write this line to the console and offer it to the remote gateway;
    /// a failed remote delivery is logged, never propagated.
    Emit(String),
    /// The terminate sentinel: leave the loop.
    Exit,
}

/// Decides what to do with one output-bus packet: format a leveled message
/// as `"[LEVEL] text"`, or exit on the sentinel.
pub fn sink_step(packet: OutputPacket) -> (r: SinkStep)
    ensures
        packet is Terminate ==> r is Exit,
        packet matches OutputPacket::Message { level, message } ==> (r matches SinkStep::Emit(s)
            && s@ == spec_formatted_line(level, message@)),
{
    match packet {
        OutputPacket::Terminate => SinkStep::Exit,
        OutputPacket::Message { level, message } => {
            let mut line = String::from_str("[");
            line.append(level_label(&level));
            line.append("] ");
            line.append(message.as_str());
            SinkStep::Emit(line)
        },
    }
}

} // verus!
