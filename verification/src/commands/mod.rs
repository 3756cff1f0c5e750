//! The decisions of the chat commands. Each command alternates calls to the
//! voice and chat services with decisions; the decisions stand here as
//! functions from what the services reported to what to do and say next.

pub mod channel_management;
pub mod current;
pub mod queue_management;
pub mod voice;

use vstd::prelude::*;
use crate::text::{decimal, digits_value, lemma_decimal_base10, push_decimal};
use crate::types::format_duration::{duration_text, FormatDuration};

verus! {

/// A message the bot sends in answer to a command.
pub enum Reply {
    NotInVoiceChannel,
    Joined,
    CouldNotLeave,
    LeftVoiceChannel,
    NotInAVoiceChannel,
    Seeked(FormatDuration),
    SeekFailed(FormatDuration),
    CannotSeekBack,
    TrackPaused,
    TrackUnpaused,
    UnknownPlayMode,
    NoSongPlaying,
    NothingPlaying,
    QueueEmpty,
    NoCurrentSong,
    Skipped,
    CouldNotSkip,
    RemovedSong,
    QueueTooShort,
    Searching,
    Added,
    CannotPlayHere,
    GettingUrls,
    ConvertingUrls,
    PlaylistFailed,
    NotAPlaylist,
    Adding { title: String, source_url: String, count: u64, total: u64 },
    Fetched,
}

/// The text of each reply.
pub open spec fn reply_text(r: Reply) -> Seq<char> {
    match r {
        Reply::NotInVoiceChannel => "You are not in a voice channel."@,
        Reply::Joined => "Joined!"@,
        Reply::CouldNotLeave => "Could not leave channel."@,
        Reply::LeftVoiceChannel => "Left voice channel."@,
        Reply::NotInAVoiceChannel => "Not in a voice channel."@,
        Reply::Seeked(d) => "Track successfully seeked to "@ + duration_text(d@),
        Reply::SeekFailed(d) => "Failed to seek to "@ + duration_text(d@),
        Reply::CannotSeekBack => "Can't seek back in the track."@,
        Reply::TrackPaused => "Track paused!"@,
        Reply::TrackUnpaused => "Track unpaused!"@,
        Reply::UnknownPlayMode => "idk"@,
        Reply::NoSongPlaying => "No song currently playing."@,
        Reply::NothingPlaying => "No song currently playing"@,
        Reply::QueueEmpty => "Queue is empty."@,
        Reply::NoCurrentSong => "There is currently no song playing."@,
        Reply::Skipped => "Skipped song."@,
        Reply::CouldNotSkip => "Could not skip song."@,
        Reply::RemovedSong => "Removed song"@,
        Reply::QueueTooShort => "Queue is empty or not that long."@,
        Reply::Searching => "Searching..."@,
        Reply::Added => "Added"@,
        Reply::CannotPlayHere => "Not in a voice channel to play in."@,
        Reply::GettingUrls => "Getting URLs..."@,
        Reply::ConvertingUrls => "Converting URLs into tracks..."@,
        Reply::PlaylistFailed => "error"@,
        Reply::NotAPlaylist => "Not a playlist"@,
        Reply::Adding { title, source_url, count, total } => "Adding ["@ + title@ + "](<"@
            + source_url@ + ">) ("@ + decimal(count as nat) + "/"@ + decimal(total as nat) + ")"@,
        Reply::Fetched => "Fetched"@,
    }
}

/// The progress text names the track and shows how many tracks were added
/// so far and how many there are in all, each in full decimal: the text is
/// `Adding [`, the title, `](<`, the link, `>) (`, then digits that read back
/// to `count`, `/`, digits that read back to `total`, and `)`.
pub proof fn lemma_adding_text(title: String, source_url: String, count: u64, total: u64)
    ensures
        ({
            let t = reply_text(Reply::Adding { title, source_url, count, total });
            let a = title@.len() as int;
            let b = source_url@.len() as int;
            let c = decimal(count as nat).len() as int;
            let d = decimal(total as nat).len() as int;
            &&& t.len() == 15 + a + b + c + 1 + d + 1
            &&& t.subrange(0, 8) == seq!['A', 'd', 'd', 'i', 'n', 'g', ' ', '[']
            &&& t.subrange(8, 8 + a) == title@
            &&& t.subrange(8 + a, 11 + a) == seq![']', '(', '<']
            &&& t.subrange(11 + a, 11 + a + b) == source_url@
            &&& t.subrange(11 + a + b, 15 + a + b) == seq!['>', ')', ' ', '(']
            &&& digits_value(t.subrange(15 + a + b, 15 + a + b + c)) == count
            &&& t[15 + a + b + c] == '/'
            &&& digits_value(t.subrange(16 + a + b + c, 16 + a + b + c + d)) == total
            &&& t[16 + a + b + c + d] == ')'
        }),
{
    reveal_strlit("Adding [");
    reveal_strlit("](<");
    reveal_strlit(">) (");
    reveal_strlit("/");
    reveal_strlit(")");
    lemma_decimal_base10(count as nat);
    lemma_decimal_base10(total as nat);
    let t = reply_text(Reply::Adding { title, source_url, count, total });
    let a = title@.len() as int;
    let b = source_url@.len() as int;
    let c = decimal(count as nat).len() as int;
    let d = decimal(total as nat).len() as int;
    assert(t.subrange(0, 8) =~= seq!['A', 'd', 'd', 'i', 'n', 'g', ' ', '[']);
    assert(t.subrange(8, 8 + a) =~= title@);
    assert(t.subrange(8 + a, 11 + a) =~= seq![']', '(', '<']);
    assert(t.subrange(11 + a, 11 + a + b) =~= source_url@);
    assert(t.subrange(11 + a + b, 15 + a + b) =~= seq!['>', ')', ' ', '(']);
    assert(t.subrange(15 + a + b, 15 + a + b + c) =~= decimal(count as nat));
    assert(t.subrange(16 + a + b + c, 16 + a + b + c + d) =~= decimal(total as nat));
}

impl Reply {
    /// The text to send.
    pub fn text(&self) -> (s: String)
        ensures
            s@ == reply_text(*self),
    {
        match self {
            Reply::NotInVoiceChannel => String::from_str("You are not in a voice channel."),
            Reply::Joined => String::from_str("Joined!"),
            Reply::CouldNotLeave => String::from_str("Could not leave channel."),
            Reply::LeftVoiceChannel => String::from_str("Left voice channel."),
            Reply::NotInAVoiceChannel => String::from_str("Not in a voice channel."),
            Reply::Seeked(d) => {
                let s = String::from_str("Track successfully seeked to ");
                let t = d.to_string();
                s.concat(t.as_str())
            },
            Reply::SeekFailed(d) => {
                let s = String::from_str("Failed to seek to ");
                let t = d.to_string();
                s.concat(t.as_str())
            },
            Reply::CannotSeekBack => String::from_str("Can't seek back in the track."),
            Reply::TrackPaused => String::from_str("Track paused!"),
            Reply::TrackUnpaused => String::from_str("Track unpaused!"),
            Reply::UnknownPlayMode => String::from_str("idk"),
            Reply::NoSongPlaying => String::from_str("No song currently playing."),
            Reply::NothingPlaying => String::from_str("No song currently playing"),
            Reply::QueueEmpty => String::from_str("Queue is empty."),
            Reply::NoCurrentSong => String::from_str("There is currently no song playing."),
            Reply::Skipped => String::from_str("Skipped song."),
            Reply::CouldNotSkip => String::from_str("Could not skip song."),
            Reply::RemovedSong => String::from_str("Removed song"),
            Reply::QueueTooShort => String::from_str("Queue is empty or not that long."),
            Reply::Searching => String::from_str("Searching..."),
            Reply::Added => String::from_str("Added"),
            Reply::CannotPlayHere => String::from_str("Not in a voice channel to play in."),
            Reply::GettingUrls => String::from_str("Getting URLs..."),
            Reply::ConvertingUrls => String::from_str("Converting URLs into tracks..."),
            Reply::PlaylistFailed => String::from_str("error"),
            Reply::NotAPlaylist => String::from_str("Not a playlist"),
            Reply::Adding { title, source_url, count, total } => {
                let mut s = String::from_str("Adding [");
                s.append(title.as_str());
                s.append("](<");
                s.append(source_url.as_str());
                s.append(">) (");
                push_decimal(&mut s, *count);
                s.append("/");
                push_decimal(&mut s, *total);
                s.append(")");
                s
            },
            Reply::Fetched => String::from_str("Fetched"),
        }
    }
}

} // verus!
