//! Commands on the track that is playing: seeking, pausing, showing it.

use vstd::prelude::*;
use super::Reply;
use crate::types::format_duration::{duration_parts, FormatDuration};
use crate::types::metadata_queue::{Embed, MetadataObject, ToEmbed, opt_text};

verus! {

pub const NANOS_PER_SECOND: u64 = 1_000_000_000;

/// What to do when asked to seek in the current track.
pub enum SeekStep {
    /// Seek to this many seconds from the start.
    SeekTo(u64),
    /// Only answer.
    Say(Reply),
}

/// Seeking only goes forward: it happens when the track's position
/// (`position_secs` seconds and `position_nanos` nanoseconds) is before the
/// target of `seconds` seconds.
pub fn seek_step(position_secs: u64, position_nanos: u32, seconds: u64) -> (step: SeekStep)
    requires
        position_nanos < NANOS_PER_SECOND,
    ensures
        position_secs * NANOS_PER_SECOND + position_nanos < seconds * NANOS_PER_SECOND
            ==> step == SeekStep::SeekTo(seconds),
        !(position_secs * NANOS_PER_SECOND + position_nanos < seconds * NANOS_PER_SECOND)
            ==> step == SeekStep::Say(Reply::CannotSeekBack),
{
    proof {
        assert((position_secs < seconds) == (position_secs * 1_000_000_000 + position_nanos
            < seconds * 1_000_000_000)) by (nonlinear_arith)
            requires
                position_nanos < 1_000_000_000,
        ;
    }
    if position_secs < seconds {
        SeekStep::SeekTo(seconds)
    } else {
        SeekStep::Say(Reply::CannotSeekBack)
    }
}

/// The answer once the seek to `seconds` succeeded or failed.
pub fn seek_outcome(seconds: u64, succeeded: bool) -> (reply: Reply)
    ensures
        succeeded ==> (reply matches Reply::Seeked(d) && d@ == duration_parts(seconds as nat)),
        !succeeded ==> (reply matches Reply::SeekFailed(d) && d@ == duration_parts(seconds as nat)),
{
    let d = FormatDuration::new(seconds);
    if succeeded {
        Reply::Seeked(d)
    } else {
        Reply::SeekFailed(d)
    }
}

/// The play state of a track.
#[derive(Clone, Copy, PartialEq, Eq, Debug)]
pub enum PlayMode {
    Play,
    Pause,
    Stop,
    End,
    Errored,
}

/// A change to make to the current track's playback.
#[derive(Clone, Copy, PartialEq, Eq, Debug)]
pub enum PlaybackChange {
    Pause,
    Resume,
    Keep,
}

/// Pausing toggles: a playing track is paused, a paused one resumed; the
/// answer follows the change. `mode` is the current track's play state, or
/// `None` when no track is current.
pub fn pause_step(mode: Option<PlayMode>) -> (step: (PlaybackChange, Reply))
    ensures
        mode is None ==> step == (PlaybackChange::Keep, Reply::NoSongPlaying),
        mode == Some(PlayMode::Play) ==> step == (PlaybackChange::Pause, Reply::TrackPaused),
        mode == Some(PlayMode::Pause) ==> step == (PlaybackChange::Resume, Reply::TrackUnpaused),
        mode matches Some(m) && m != PlayMode::Play && m != PlayMode::Pause ==> step == (
            PlaybackChange::Keep,
            Reply::UnknownPlayMode,
        ),
{
    match mode {
        None => (PlaybackChange::Keep, Reply::NoSongPlaying),
        Some(PlayMode::Play) => (PlaybackChange::Pause, Reply::TrackPaused),
        Some(PlayMode::Pause) => (PlaybackChange::Resume, Reply::TrackUnpaused),
        Some(_) => (PlaybackChange::Keep, Reply::UnknownPlayMode),
    }
}

/// The answer to a request for the current track.
pub enum NowPlaying {
    Show(Embed),
    Say(Reply),
}

/// The current track is shown as its embed; without one the bot says so.
pub fn now_playing_reply(current: Option<&MetadataObject>) -> (r: NowPlaying)
    ensures
        current is None ==> r == NowPlaying::Say(Reply::NothingPlaying),
        current matches Some(m) ==> (r matches NowPlaying::Show(e) && opt_text(e.title) == Some(
            m@.title,
        ) && opt_text(e.thumbnail) == Some(m@.thumbnail_url) && opt_text(e.description) == Some(
            m@.channel,
        ) && opt_text(e.url) == Some(m@.source_url)),
{
    match current {
        Some(m) => NowPlaying::Show(m.to_embed()),
        None => NowPlaying::Say(Reply::NothingPlaying),
    }
}

} // verus!
