//! Where a command was sent from.

use vstd::prelude::*;

verus! {

/// The guild a command came from and the voice channel its author is in.
pub struct Playground {
    pub guild_id: u64,
    pub channel_id: Option<u64>,
}

impl Playground {
    /// `voice_state` is the author's voice state in the guild, if there is
    /// one, holding the voice channel it is connected to, if any.
    pub fn from_voice_state(guild_id: u64, voice_state: Option<Option<u64>>) -> (r: Playground)
        ensures
            r.guild_id == guild_id,
            r.channel_id == (match voice_state {
                Some(channel) => channel,
                None => None,
            }),
    {
        let channel_id = match voice_state {
            Some(channel) => channel,
            None => None,
        };
        Playground { guild_id, channel_id }
    }
}

} // verus!
