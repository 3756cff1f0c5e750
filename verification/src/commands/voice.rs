//! Playing a link or a search, and queueing a whole playlist.

use vstd::prelude::*;
use super::Reply;
use crate::text::{has_prefix, starts_with_str};
use crate::types::metadata_queue::{opt_text, Embed, MetadataObject, ToEmbed};
use crate::types::playlist_parser::is_playlist;
use crate::text::contains_infix;

verus! {

/// A request that is not a web link is searched for.
pub fn is_search(url: &str) -> (r: bool)
    ensures
        r == !has_prefix(url@, "http"@),
{
    !starts_with_str(url, "http")
}

/// The answer once a track was queued (`Some` with its metadata), or when
/// there was no call to queue it in (`None`).
pub fn play_outcome(added: Option<&MetadataObject>) -> (r: (Reply, Option<Embed>))
    ensures
        added is None ==> r == (Reply::CannotPlayHere, None::<Embed>),
        added matches Some(m) ==> r.0 == Reply::Added,
        added matches Some(m) ==> (r.1 matches Some(e) && opt_text(e.title) == Some(m@.title)
            && opt_text(e.thumbnail) == Some(m@.thumbnail_url) && opt_text(e.description) == Some(
            m@.channel,
        ) && opt_text(e.url) == Some(m@.source_url)),
{
    match added {
        Some(m) => (Reply::Added, Some(m.to_embed())),
        None => (Reply::CannotPlayHere, None),
    }
}

/// What to do with a playlist request.
pub enum PlaylistStep {
    /// Ask the lister for the entries.
    Fetch,
    Say(Reply),
}

/// Only playlist links are fetched.
pub fn playlist_step(url: &str) -> (step: PlaylistStep)
    ensures
        contains_infix(url@, "list="@) ==> step == PlaylistStep::Fetch,
        !contains_infix(url@, "list="@) ==> step == PlaylistStep::Say(Reply::NotAPlaylist),
{
    if is_playlist(url) {
        PlaylistStep::Fetch
    } else {
        PlaylistStep::Say(Reply::NotAPlaylist)
    }
}

/// The progress message while the `count`-th of `total` tracks is queued,
/// with the track's embed.
pub fn adding_progress(track: &MetadataObject, count: u64, total: u64) -> (r: (Reply, Embed))
    ensures
        r.0 matches Reply::Adding { title, source_url, count: c, total: t } && title@
            == track@.title && source_url@ == track@.source_url && c == count && t == total,
        opt_text(r.1.title) == Some(track@.title),
        opt_text(r.1.thumbnail) == Some(track@.thumbnail_url),
        opt_text(r.1.description) == Some(track@.channel),
        opt_text(r.1.url) == Some(track@.source_url),
{
    let reply = Reply::Adding {
        title: String::from_str(track.title()),
        source_url: String::from_str(track.source_url()),
        count,
        total,
    };
    (reply, track.to_embed())
}

} // verus!
