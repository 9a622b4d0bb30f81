//! The authorization boundary for remote-chat commands.
//!
//! Inbound text messages carry a sender id; exactly one id, fixed in the
//! configuration, is permitted to issue commands.  A message from that id is
//! forwarded onto the input bus with a line terminator appended; a message
//! from any other id is rejected — it never reaches the input bus, the
//! dispatcher never sees it, and the shell only logs a warning naming the
//! rejected id.  Delivery of outbound messages through the gateway is plain
//! network I/O and lives in the shell.

use vstd::prelude::*;

verus! {

/// What becomes of one inbound remote-chat message.
#[derive(Clone, Debug)]
pub enum RemoteAction {
    /// Publish this line (the message text plus terminator) to the input
    /// bus and log the receipt.
    Forward(String),
    /// Drop the message and log a warning naming the sender.
    Reject,
}

/// The authorization decision: only the configured id's messages become
/// commands, whatever their text — even a reserved keyword from any other
/// sender is dropped.
pub fn route_remote_message(authorized_id: i64, sender_id: i64, text: &str) -> (r: RemoteAction)
    ensures
        sender_id == authorized_id ==> (r matches RemoteAction::Forward(s)
            && s@ == text@ + "\n"@),
        sender_id != authorized_id ==> r is Reject,
{
    if sender_id == authorized_id {
        let mut line = String::from_str(text);
        line.append("\n");
        RemoteAction::Forward(line)
    } else {
        RemoteAction::Reject
    }
}

} // verus!
