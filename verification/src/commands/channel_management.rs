//! Joining and leaving the author's voice channel.

use vstd::prelude::*;
use super::Reply;

verus! {

/// What to do when asked to join the author's voice channel.
pub enum ConnectStep {
    /// Join this voice channel.
    Join(u64),
    /// Only answer.
    Say(Reply),
}

/// Joining needs the author to be in a voice channel.
pub fn connect_step(channel_id: Option<u64>) -> (step: ConnectStep)
    ensures
        channel_id matches Some(id) ==> step == ConnectStep::Join(id),
        channel_id is None ==> step == ConnectStep::Say(Reply::NotInVoiceChannel),
{
    match channel_id {
        Some(id) => ConnectStep::Join(id),
        None => ConnectStep::Say(Reply::NotInVoiceChannel),
    }
}

/// After a join attempt: a successful join is announced (and the track
/// error notifier is then registered); a failed one is passed over in
/// silence.
pub fn connect_outcome(joined: bool) -> (reply: Option<Reply>)
    ensures
        joined ==> reply == Some(Reply::Joined),
        !joined ==> reply is None,
{
    if joined {
        Some(Reply::Joined)
    } else {
        None
    }
}

/// What to do when asked to leave.
pub enum LeaveStep {
    /// Leave the guild's call.
    Leave,
    /// Only answer.
    Say(Reply),
}

/// Leaving needs a call in the guild.
pub fn leave_step(in_call: bool) -> (step: LeaveStep)
    ensures
        in_call ==> step == LeaveStep::Leave,
        !in_call ==> step == LeaveStep::Say(Reply::NotInAVoiceChannel),
{
    if in_call {
        LeaveStep::Leave
    } else {
        LeaveStep::Say(Reply::NotInAVoiceChannel)
    }
}

/// The answer once the call was left, or failed to be.
pub fn leave_outcome(left: bool) -> (reply: Reply)
    ensures
        left ==> reply == Reply::LeftVoiceChannel,
        !left ==> reply == Reply::CouldNotLeave,
{
    if left {
        Reply::LeftVoiceChannel
    } else {
        Reply::CouldNotLeave
    }
}

} // verus!
