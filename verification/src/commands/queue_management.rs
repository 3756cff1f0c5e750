//! Commands on the queue: showing it, skipping, removing a track.

use std::sync::Arc;
use vstd::prelude::*;
use super::Reply;
use crate::types::metadata_queue::{
    entries, metadata_views, opt_text, queue_listing, Embed, MetadataObject, ToEmbed,
};

verus! {

/// What the bot sends when asked for the queue.
pub struct QueueReply {
    /// A notice sent first, when the queue is empty.
    pub notice: Option<Reply>,
    /// The listing of the queue.
    pub embed: Embed,
}

/// The queue is shown as an embed titled "Music queue" whose description
/// lists every track; an empty queue is announced first.
pub fn queue_reply(tracks: &Vec<Arc<MetadataObject>>) -> (r: QueueReply)
    ensures
        tracks@.len() == 0 ==> r.notice == Some(Reply::QueueEmpty),
        tracks@.len() != 0 ==> r.notice is None,
        opt_text(r.embed.title) == Some("Music queue"@),
        opt_text(r.embed.description) == Some(entries(metadata_views(tracks@), 0)),
        r.embed.url is None,
        r.embed.thumbnail is None,
{
    let notice = if tracks.len() == 0 {
        Some(Reply::QueueEmpty)
    } else {
        None
    };
    let embed = Embed {
        title: Some(String::from_str("Music queue")),
        description: Some(queue_listing(tracks)),
        url: None,
        thumbnail: None,
    };
    QueueReply { notice, embed }
}

/// What to do when asked to skip.
pub enum SkipStep {
    Skip,
    Say(Reply),
}

/// Skipping needs a current track.
pub fn skip_step(has_current: bool) -> (step: SkipStep)
    ensures
        has_current ==> step == SkipStep::Skip,
        !has_current ==> step == SkipStep::Say(Reply::NoCurrentSong),
{
    if has_current {
        SkipStep::Skip
    } else {
        SkipStep::Say(Reply::NoCurrentSong)
    }
}

/// The answer once the skip succeeded or failed.
pub fn skip_outcome(skipped: bool) -> (reply: Reply)
    ensures
        skipped ==> reply == Reply::Skipped,
        !skipped ==> reply == Reply::CouldNotSkip,
{
    if skipped {
        Reply::Skipped
    } else {
        Reply::CouldNotSkip
    }
}

/// Positions in the queue are counted from one; the queue's index from zero.
pub fn remove_index(position: usize) -> (index: usize)
    requires
        position >= 1,
    ensures
        index == position - 1,
{
    position - 1
}

/// The answer to a removal.
pub enum RemoveReply {
    /// Announce the removed track with its embed.
    Removed(Reply, Embed),
    Say(Reply),
}

/// A removed track is announced with its embed; when nothing was at that
/// position the bot says so.
pub fn remove_outcome(removed: Option<&MetadataObject>) -> (r: RemoveReply)
    ensures
        removed is None ==> r == RemoveReply::Say(Reply::QueueTooShort),
        removed matches Some(m) ==> (r matches RemoveReply::Removed(reply, e) && reply
            == Reply::RemovedSong && opt_text(e.title) == Some(m@.title) && opt_text(e.thumbnail)
            == Some(m@.thumbnail_url) && opt_text(e.description) == Some(m@.channel) && opt_text(
            e.url,
        ) == Some(m@.source_url)),
{
    match removed {
        Some(m) => RemoveReply::Removed(Reply::RemovedSong, m.to_embed()),
        None => RemoveReply::Say(Reply::QueueTooShort),
    }
}

} // verus!
