use std::sync::Arc;
use dirustic::commands::channel_management::{
    connect_outcome, connect_step, leave_outcome, leave_step, ConnectStep, LeaveStep,
};
use dirustic::commands::current::{
    now_playing_reply, pause_step, seek_outcome, seek_step, NowPlaying, PlayMode, PlaybackChange,
    SeekStep,
};
use dirustic::commands::queue_management::{
    queue_reply, remove_index, remove_outcome, skip_outcome, skip_step, RemoveReply, SkipStep,
};
use dirustic::commands::voice::{adding_progress, is_search, play_outcome, playlist_step, PlaylistStep};
use dirustic::commands::Reply;
use dirustic::types::format_duration::FormatDuration;
use dirustic::types::metadata_queue::{AuxMetadata, MetadataObject};
use dirustic::types::playground::Playground;

fn song() -> MetadataObject {
    MetadataObject::from(AuxMetadata {
        title: Some("Title".to_string()),
        source_url: Some("https://s".to_string()),
        channel: Some("Chan".to_string()),
        thumbnail: Some("https://t".to_string()),
    })
}

#[test]
fn reply_texts() {
    let cases = [
        (Reply::NotInVoiceChannel, "You are not in a voice channel."),
        (Reply::Joined, "Joined!"),
        (Reply::CouldNotLeave, "Could not leave channel."),
        (Reply::LeftVoiceChannel, "Left voice channel."),
        (Reply::NotInAVoiceChannel, "Not in a voice channel."),
        (Reply::CannotSeekBack, "Can't seek back in the track."),
        (Reply::TrackPaused, "Track paused!"),
        (Reply::TrackUnpaused, "Track unpaused!"),
        (Reply::UnknownPlayMode, "idk"),
        (Reply::NoSongPlaying, "No song currently playing."),
        (Reply::NothingPlaying, "No song currently playing"),
        (Reply::QueueEmpty, "Queue is empty."),
        (Reply::NoCurrentSong, "There is currently no song playing."),
        (Reply::Skipped, "Skipped song."),
        (Reply::CouldNotSkip, "Could not skip song."),
        (Reply::RemovedSong, "Removed song"),
        (Reply::QueueTooShort, "Queue is empty or not that long."),
        (Reply::Searching, "Searching..."),
        (Reply::Added, "Added"),
        (Reply::CannotPlayHere, "Not in a voice channel to play in."),
        (Reply::GettingUrls, "Getting URLs..."),
        (Reply::ConvertingUrls, "Converting URLs into tracks..."),
        (Reply::PlaylistFailed, "error"),
        (Reply::NotAPlaylist, "Not a playlist"),
        (Reply::Fetched, "Fetched"),
    ];
    for (reply, text) in cases {
        assert_eq!(reply.text(), text);
    }
}

#[test]
fn seek_reply_texts() {
    assert_eq!(Reply::Seeked(FormatDuration::new(75)).text(), "Track successfully seeked to 0:01:15");
    assert_eq!(Reply::SeekFailed(FormatDuration::new(3600)).text(), "Failed to seek to 1:00:00");
}

#[test]
fn adding_progress_text_and_embed() {
    let (reply, embed) = adding_progress(&song(), 3, 12);
    assert_eq!(reply.text(), "Adding [Title](<https://s>) (3/12)");
    assert_eq!(embed.title.as_deref(), Some("Title"));
}

#[test]
fn connect_decisions() {
    assert!(matches!(connect_step(Some(42)), ConnectStep::Join(42)));
    assert!(matches!(connect_step(None), ConnectStep::Say(Reply::NotInVoiceChannel)));
    assert!(matches!(connect_outcome(true), Some(Reply::Joined)));
    assert!(connect_outcome(false).is_none());
}

#[test]
fn leave_decisions() {
    assert!(matches!(leave_step(true), LeaveStep::Leave));
    assert!(matches!(leave_step(false), LeaveStep::Say(Reply::NotInAVoiceChannel)));
    assert!(matches!(leave_outcome(true), Reply::LeftVoiceChannel));
    assert!(matches!(leave_outcome(false), Reply::CouldNotLeave));
}

#[test]
fn seek_only_forward() {
    assert!(matches!(seek_step(10, 0, 30), SeekStep::SeekTo(30)));
    assert!(matches!(seek_step(29, 999_999_999, 30), SeekStep::SeekTo(30)));
    assert!(matches!(seek_step(30, 0, 30), SeekStep::Say(Reply::CannotSeekBack)));
    assert!(matches!(seek_step(30, 1, 30), SeekStep::Say(Reply::CannotSeekBack)));
    assert!(matches!(seek_step(40, 0, 30), SeekStep::Say(Reply::CannotSeekBack)));
    assert_eq!(seek_outcome(90, true).text(), "Track successfully seeked to 0:01:30");
    assert_eq!(seek_outcome(90, false).text(), "Failed to seek to 0:01:30");
}

#[test]
fn pause_toggles() {
    assert!(matches!(pause_step(None), (PlaybackChange::Keep, Reply::NoSongPlaying)));
    assert!(matches!(pause_step(Some(PlayMode::Play)), (PlaybackChange::Pause, Reply::TrackPaused)));
    assert!(matches!(pause_step(Some(PlayMode::Pause)), (PlaybackChange::Resume, Reply::TrackUnpaused)));
    for m in [PlayMode::Stop, PlayMode::End, PlayMode::Errored] {
        assert!(matches!(pause_step(Some(m)), (PlaybackChange::Keep, Reply::UnknownPlayMode)));
    }
}

#[test]
fn now_playing_answers() {
    assert!(matches!(now_playing_reply(None), NowPlaying::Say(Reply::NothingPlaying)));
    match now_playing_reply(Some(&song())) {
        NowPlaying::Show(e) => assert_eq!(e.url.as_deref(), Some("https://s")),
        NowPlaying::Say(_) => panic!("expected an embed"),
    }
}

#[test]
fn queue_answers() {
    let empty: Vec<Arc<MetadataObject>> = Vec::new();
    let r = queue_reply(&empty);
    assert!(matches!(r.notice, Some(Reply::QueueEmpty)));
    assert_eq!(r.embed.title.as_deref(), Some("Music queue"));
    assert_eq!(r.embed.description.as_deref(), Some(""));
    let one = vec![Arc::new(song())];
    let r = queue_reply(&one);
    assert!(r.notice.is_none());
    assert_eq!(r.embed.description.as_deref(), Some("1. [**\"Title\"**](https://s) from **Chan**.\n"));
    assert!(r.embed.url.is_none() && r.embed.thumbnail.is_none());
}

#[test]
fn skip_and_remove_answers() {
    assert!(matches!(skip_step(true), SkipStep::Skip));
    assert!(matches!(skip_step(false), SkipStep::Say(Reply::NoCurrentSong)));
    assert!(matches!(skip_outcome(true), Reply::Skipped));
    assert!(matches!(skip_outcome(false), Reply::CouldNotSkip));
    assert_eq!(remove_index(1), 0);
    assert_eq!(remove_index(5), 4);
    assert!(matches!(remove_outcome(None), RemoveReply::Say(Reply::QueueTooShort)));
    match remove_outcome(Some(&song())) {
        RemoveReply::Removed(Reply::RemovedSong, e) => assert_eq!(e.title.as_deref(), Some("Title")),
        _ => panic!("expected the removed track"),
    }
}

#[test]
fn play_answers() {
    assert!(is_search("never gonna give you up"));
    assert!(!is_search("https://youtu.be/x"));
    assert!(!is_search("http://x"));
    assert!(matches!(play_outcome(None), (Reply::CannotPlayHere, None)));
    match play_outcome(Some(&song())) {
        (Reply::Added, Some(e)) => assert_eq!(e.description.as_deref(), Some("Chan")),
        _ => panic!("expected the added track"),
    }
    assert!(matches!(playlist_step("https://y/playlist?list=1"), PlaylistStep::Fetch));
    assert!(matches!(playlist_step("https://y/watch?v=1"), PlaylistStep::Say(Reply::NotAPlaylist)));
}

#[test]
fn playground_channel() {
    let p = Playground::from_voice_state(7, Some(Some(9)));
    assert_eq!((p.guild_id, p.channel_id), (7, Some(9)));
    assert_eq!(Playground::from_voice_state(7, Some(None)).channel_id, None);
    assert_eq!(Playground::from_voice_state(7, None).channel_id, None);
}
