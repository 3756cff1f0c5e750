//! Track metadata, its one-line rendering, its embed, and the numbered
//! listing of a queue split into pages.

use std::sync::Arc;
use vstd::prelude::*;
use crate::text::{decimal, push_decimal};

verus! {

/// How many tracks one page of a listing shows.
pub const ITEMS_PER_PAGE: usize = 10;

/// What is known of a track when it is queued.
#[derive(Clone)]
pub struct MetadataObject {
    title: String,
    source_url: String,
    channel: String,
    thumbnail_url: String,
}

/// The text of each field of a [`MetadataObject`].
pub struct MetadataView {
    pub title: Seq<char>,
    pub source_url: Seq<char>,
    pub channel: Seq<char>,
    pub thumbnail_url: Seq<char>,
}

impl View for MetadataObject {
    type V = MetadataView;

    closed spec fn view(&self) -> MetadataView {
        MetadataView {
            title: self.title@,
            source_url: self.source_url@,
            channel: self.channel@,
            thumbnail_url: self.thumbnail_url@,
        }
    }
}

/// The optional fields that a track source reports about a track.
pub struct AuxMetadata {
    pub title: Option<String>,
    pub source_url: Option<String>,
    pub channel: Option<String>,
    pub thumbnail: Option<String>,
}

/// The text of an optional field, or `default` when it is absent.
pub open spec fn text_or(field: Option<String>, default: Seq<char>) -> Seq<char> {
    match field {
        Some(s) => s@,
        None => default,
    }
}

/// The content of a rich message: each part may be absent.
pub struct Embed {
    pub title: Option<String>,
    pub description: Option<String>,
    pub url: Option<String>,
    pub thumbnail: Option<String>,
}

/// The text of an optional part, if present.
pub open spec fn opt_text(part: Option<String>) -> Option<Seq<char>> {
    match part {
        Some(s) => Some(s@),
        None => None,
    }
}

/// Something that can be shown as an [`Embed`].
pub trait ToEmbed {
    fn to_embed(&self) -> Embed;
}

/// The one-line rendering of a track: bold quoted title linked to its
/// source, then the channel.
pub open spec fn display_text(m: MetadataView) -> Seq<char> {
    "[**\""@ + m.title + "\"**]("@ + m.source_url + ") from **"@ + m.channel + "**."@
}

/// One numbered line of a listing.
pub open spec fn entry_line(number: nat, m: MetadataView) -> Seq<char> {
    decimal(number) + ". "@ + display_text(m) + "\n"@
}

/// The lines for `items`, numbered from `first + 1` on.
pub open spec fn entries(items: Seq<MetadataView>, first: nat) -> Seq<char>
    decreases items.len(),
{
    if items.len() == 0 {
        Seq::<char>::empty()
    } else {
        entries(items.drop_last(), first) + entry_line((first + items.len()) as nat, items.last())
    }
}

/// The views of the tracks behind a list of shared pointers.
pub open spec fn metadata_views(tracks: Seq<Arc<MetadataObject>>) -> Seq<MetadataView> {
    tracks.map_values(|m: Arc<MetadataObject>| m@)
}

/// The index of the first entry that page `index` shows.
pub open spec fn page_start(index: nat) -> nat {
    index * (ITEMS_PER_PAGE as nat)
}

/// One past the index of the last entry that page `index` of `n` entries shows.
pub open spec fn page_end(n: nat, index: nat) -> nat {
    if n < page_start(index) + ITEMS_PER_PAGE {
        n
    } else {
        page_start(index) + (ITEMS_PER_PAGE as nat)
    }
}

/// The text of page `index`: its entries, numbered as in the whole listing.
pub open spec fn page_text(items: Seq<MetadataView>, index: nat) -> Seq<char> {
    entries(
        items.subrange(page_start(index) as int, page_end(items.len(), index) as int),
        page_start(index),
    )
}

/// How many pages `n` entries fill.
pub open spec fn page_count(n: nat) -> nat {
    if n % (ITEMS_PER_PAGE as nat) > 0 {
        n / (ITEMS_PER_PAGE as nat) + 1
    } else {
        n / (ITEMS_PER_PAGE as nat)
    }
}

/// The pages of a listing, in order.
pub open spec fn pages(items: Seq<MetadataView>) -> Seq<Seq<char>> {
    Seq::new(page_count(items.len()), |i: int| page_text(items, i as nat))
}

/// Texts written one after the other.
pub open spec fn concat_all(parts: Seq<Seq<char>>) -> Seq<char>
    decreases parts.len(),
{
    if parts.len() == 0 {
        Seq::<char>::empty()
    } else {
        concat_all(parts.drop_last()) + parts.last()
    }
}

/// The one-line rendering holds every field whole, in order: `[**"`, the
/// title, `"**](`, the source link, `) from **`, the channel, `**.`.
pub proof fn lemma_display_fields(m: MetadataView)
    ensures
        ({
            let t = display_text(m);
            let a = m.title.len() as int;
            let b = m.source_url.len() as int;
            let c = m.channel.len() as int;
            &&& t.len() == a + b + c + 21
            &&& t.subrange(0, 4) == seq!['[', '*', '*', '"']
            &&& t.subrange(4, 4 + a) == m.title
            &&& t.subrange(4 + a, 9 + a) == seq!['"', '*', '*', ']', '(']
            &&& t.subrange(9 + a, 9 + a + b) == m.source_url
            &&& t.subrange(9 + a + b, 18 + a + b) == seq![')', ' ', 'f', 'r', 'o', 'm', ' ', '*', '*']
            &&& t.subrange(18 + a + b, 18 + a + b + c) == m.channel
            &&& t.subrange(18 + a + b + c, 21 + a + b + c) == seq!['*', '*', '.']
        }),
{
    reveal_strlit("[**\"");
    reveal_strlit("\"**](");
    reveal_strlit(") from **");
    reveal_strlit("**.");
    let t = display_text(m);
    let a = m.title.len() as int;
    let b = m.source_url.len() as int;
    let c = m.channel.len() as int;
    assert(t.subrange(0, 4) =~= seq!['[', '*', '*', '"']);
    assert(t.subrange(4, 4 + a) =~= m.title);
    assert(t.subrange(4 + a, 9 + a) =~= seq!['"', '*', '*', ']', '(']);
    assert(t.subrange(9 + a, 9 + a + b) =~= m.source_url);
    assert(t.subrange(9 + a + b, 18 + a + b) =~= seq![')', ' ', 'f', 'r', 'o', 'm', ' ', '*', '*']);
    assert(t.subrange(18 + a + b, 18 + a + b + c) =~= m.channel);
    assert(t.subrange(18 + a + b + c, 21 + a + b + c) =~= seq!['*', '*', '.']);
}

/// Listing items one after the other numbers the second run on from the first.
pub proof fn lemma_entries_append(a: Seq<MetadataView>, b: Seq<MetadataView>, first: nat)
    ensures
        entries(a + b, first) == entries(a, first) + entries(b, first + a.len()),
    decreases b.len(),
{
    if b.len() == 0 {
        assert(a + b =~= a);
        assert(entries(b, first + a.len()) =~= Seq::<char>::empty());
        assert(entries(a, first) + Seq::<char>::empty() =~= entries(a, first));
    } else {
        lemma_entries_append(a, b.drop_last(), first);
        assert((a + b).drop_last() =~= a + b.drop_last());
        assert((a + b).last() == b.last());
        assert(entries(a + b, first) =~= entries(a, first) + entries(b, first + a.len()));
    }
}

impl MetadataObject {
    pub fn title(&self) -> (r: &str)
        ensures
            r@ == self@.title,
    {
        self.title.as_str()
    }

    pub fn source_url(&self) -> (r: &str)
        ensures
            r@ == self@.source_url,
    {
        self.source_url.as_str()
    }

    pub fn channel(&self) -> (r: &str)
        ensures
            r@ == self@.channel,
    {
        self.channel.as_str()
    }

    pub fn thumbnail_url(&self) -> (r: &str)
        ensures
            r@ == self@.thumbnail_url,
    {
        self.thumbnail_url.as_str()
    }

    /// Builds the metadata of a track from what its source reported, with
    /// placeholders for what it did not report.
    pub fn from(metadata: AuxMetadata) -> (r: Self)
        ensures
            r@.title == text_or(metadata.title, "Unknown title"@),
            r@.source_url == text_or(metadata.source_url, "Unknown source"@),
            r@.channel == text_or(metadata.channel, "Unknown channel"@),
            r@.thumbnail_url == text_or(metadata.thumbnail, ""@),
    {
        let title = match metadata.title {
            Some(t) => t,
            None => String::from_str("Unknown title"),
        };
        let source_url = match metadata.source_url {
            Some(t) => t,
            None => String::from_str("Unknown source"),
        };
        let channel = match metadata.channel {
            Some(t) => t,
            None => String::from_str("Unknown channel"),
        };
        let thumbnail_url = match metadata.thumbnail {
            Some(t) => t,
            None => String::from_str(""),
        };
        Self { title, source_url, channel, thumbnail_url }
    }

    /// Appends the one-line rendering of this track to `s`.
    pub fn push_display(&self, s: &mut String)
        ensures
            final(s)@ == old(s)@ + display_text(self@),
    {
        s.append("[**\"");
        s.append(self.title.as_str());
        s.append("\"**](");
        s.append(self.source_url.as_str());
        s.append(") from **");
        s.append(self.channel.as_str());
        s.append("**.");
        assert(final(s)@ =~= old(s)@ + display_text(self@));
    }

    /// The one-line rendering of this track.
    pub fn to_string(&self) -> (s: String)
        ensures
            s@ == display_text(self@),
    {
        let mut s = String::new();
        self.push_display(&mut s);
        assert(s@ =~= display_text(self@));
        s
    }
}

impl ToEmbed for MetadataObject {
    /// The embed of a track: its title, linked to its source, with the
    /// channel as description and its thumbnail.
    fn to_embed(&self) -> (e: Embed)
        ensures
            opt_text(e.title) == Some(self@.title),
            opt_text(e.thumbnail) == Some(self@.thumbnail_url),
            opt_text(e.description) == Some(self@.channel),
            opt_text(e.url) == Some(self@.source_url),
    {
        Embed {
            title: Some(self.title.clone()),
            description: Some(self.channel.clone()),
            url: Some(self.source_url.clone()),
            thumbnail: Some(self.thumbnail_url.clone()),
        }
    }
}

/// Appends the listing lines of `tracks[lo..hi]`, numbered from `lo + 1`.
fn push_entries(tracks: &Vec<Arc<MetadataObject>>, lo: usize, hi: usize, s: &mut String)
    requires
        lo <= hi <= tracks@.len(),
    ensures
        final(s)@ == old(s)@ + entries(
            metadata_views(tracks@).subrange(lo as int, hi as int),
            lo as nat,
        ),
{
    let ghost items = metadata_views(tracks@);
    let ghost start = old(s)@;
    let mut count: usize = lo;
    assert(items.subrange(lo as int, lo as int) =~= Seq::<MetadataView>::empty());
    assert(s@ =~= start + entries(items.subrange(lo as int, lo as int), lo as nat));
    while count < hi
        invariant
            lo <= count <= hi,
            hi <= tracks@.len(),
            items == metadata_views(tracks@),
            s@ == start + entries(items.subrange(lo as int, count as int), lo as nat),
        decreases hi - count,
    {
        let m: &MetadataObject = &tracks[count];
        let ghost before = s@;
        count = count + 1;
        push_decimal(s, count as u64);
        s.append(". ");
        m.push_display(s);
        s.append("\n");
        let ghost run = items.subrange(lo as int, count as int);
        assert(run.drop_last() =~= items.subrange(lo as int, count - 1));
        assert(run.last() == items[count - 1]);
        assert(items[count - 1] == tracks@[count - 1]@);
        assert(s@ =~= before + entry_line(count as nat, m@));
        assert(s@ =~= start + entries(run, lo as nat));
    }
}

/// The numbered listing of every track of a queue, one line per track.
pub fn queue_listing(tracks: &Vec<Arc<MetadataObject>>) -> (s: String)
    ensures
        s@ == entries(metadata_views(tracks@), 0),
{
    let mut s = String::new();
    push_entries(tracks, 0, tracks.len(), &mut s);
    assert(metadata_views(tracks@).subrange(0, tracks@.len() as int) =~= metadata_views(tracks@));
    assert(s@ =~= entries(metadata_views(tracks@), 0));
    s
}


/// A list that can be shown as numbered pages of text.
pub trait ToEmbedPageContent {
    /// How many entries the list holds.
    spec fn entry_count(&self) -> nat;

    /// The text of page `index`.
    fn page(&self, index: usize) -> String
        requires
            index * ITEMS_PER_PAGE <= self.entry_count(),
    ;

    /// The text of every page, in order.
    fn to_paged_embed(&self) -> Vec<String>;
}

impl ToEmbedPageContent for Vec<Arc<MetadataObject>> {
    open spec fn entry_count(&self) -> nat {
        self@.len()
    }

    /// Page `index` lists the tracks from `index * 10` up to ten tracks on,
    /// numbered as in the whole queue.
    fn page(&self, index: usize) -> (s: String)
        ensures
            s@ == page_text(metadata_views(self@), index as nat),
    {
        let len = self.len();
        let lo = index * ITEMS_PER_PAGE;
        let hi = if len - lo < ITEMS_PER_PAGE {
            len
        } else {
            lo + ITEMS_PER_PAGE
        };
        let mut description = String::new();
        push_entries(self, lo, hi, &mut description);
        assert(description@ =~= page_text(metadata_views(self@), index as nat));
        description
    }

    /// One text per page, as many pages as ten tracks a page need.
    fn to_paged_embed(&self) -> (embeds: Vec<String>)
        ensures
            embeds.deep_view() == pages(metadata_views(self@)),
    {
        let mut embeds: Vec<String> = Vec::new();
        let page_number = if self.len() % ITEMS_PER_PAGE > 0 {
            self.len() / ITEMS_PER_PAGE + 1
        } else {
            self.len() / ITEMS_PER_PAGE
        };
        let ghost items = metadata_views(self@);
        let mut page_nb: usize = 0;
        while page_nb < page_number
            invariant
                page_number == page_count(self@.len()),
                page_nb <= page_number,
                items == metadata_views(self@),
                embeds.deep_view() =~= Seq::new(page_nb as nat, |i: int| page_text(items, i as nat)),
            decreases page_number - page_nb,
        {
            assert(page_nb * ITEMS_PER_PAGE <= self@.len()) by (nonlinear_arith)
                requires
                    page_nb < page_number,
                    page_number == page_count(self@.len()),
            ;
            let text = self.page(page_nb);
            let ghost before = embeds.deep_view();
            embeds.push(text);
            assert(embeds.deep_view() =~= before.push(text@));
            page_nb = page_nb + 1;
        }
        embeds
    }
}

/// How many entries the first `p` pages of `n` entries hold.
pub open spec fn covered(n: nat, p: nat) -> nat {
    if n < page_start(p) {
        n
    } else {
        page_start(p)
    }
}

proof fn lemma_page_arith(n: nat, p: nat)
    ensures
        p < page_count(n) ==> page_start(p) < n,
        p < page_count(n) ==> page_end(n, p) == covered(n, p + 1),
        covered(n, page_count(n)) == n,
        p == 0 ==> covered(n, p) == 0,
{
    assert(p < page_count(n) ==> p * 10 < n) by (nonlinear_arith)
        requires
            page_count(n) == (if n % 10 > 0 { n / 10 + 1 } else { n / 10 }),
    ;
    assert((p + 1) * 10 == p * 10 + 10) by (nonlinear_arith);
    assert(page_count(n) * 10 >= n) by (nonlinear_arith)
        requires
            page_count(n) == (if n % 10 > 0 { n / 10 + 1 } else { n / 10 }),
    ;
}

proof fn lemma_prefix_pages(items: Seq<MetadataView>, p: nat)
    requires
        p <= page_count(items.len()),
    ensures
        concat_all(pages(items).subrange(0, p as int)) == entries(
            items.subrange(0, covered(items.len(), p) as int),
            0,
        ),
    decreases p,
{
    let n = items.len();
    let all = pages(items);
    if p == 0 {
        lemma_page_arith(n, 0);
        assert(all.subrange(0, 0) =~= Seq::<Seq<char>>::empty());
        assert(items.subrange(0, 0) =~= Seq::<MetadataView>::empty());
    } else {
        let q = (p - 1) as nat;
        lemma_prefix_pages(items, q);
        lemma_page_arith(n, q);
        let lo = page_start(q);
        let hi = page_end(n, q);
        assert(covered(n, q) == lo);
        assert(all.subrange(0, p as int).drop_last() =~= all.subrange(0, q as int));
        assert(all.subrange(0, p as int).last() == page_text(items, q));
        lemma_entries_append(items.subrange(0, lo as int), items.subrange(lo as int, hi as int), 0);
        assert(items.subrange(0, lo as int) + items.subrange(lo as int, hi as int) =~= items.subrange(
            0,
            hi as int,
        ));
    }
}

/// Line `k` of a listing (counted from zero) is the track's number in the
/// whole listing, `first + k + 1`, in decimal, then `. `, the track's
/// rendering and a line break; it comes right after the lines before it.
pub proof fn lemma_listing_line(items: Seq<MetadataView>, first: nat, k: int)
    requires
        0 <= k < items.len(),
    ensures
        ({
            let t = entries(items, first);
            let before = entries(items.subrange(0, k), first).len() as int;
            let line = decimal((first + k + 1) as nat) + seq!['.', ' '] + display_text(items[k])
                + seq!['\n'];
            &&& before + line.len() <= t.len()
            &&& t.subrange(before, before + line.len()) == line
        }),
{
    reveal_strlit(". ");
    reveal_strlit("\n");
    let n = items.len() as int;
    let a = items.subrange(0, k);
    let rest = items.subrange(k, n);
    let one = items.subrange(k, k + 1);
    let tail = items.subrange(k + 1, n);
    assert(a + rest =~= items);
    assert(one + tail =~= rest);
    lemma_entries_append(a, rest, first);
    lemma_entries_append(one, tail, (first + k) as nat);
    assert(one.drop_last() =~= Seq::<MetadataView>::empty());
    assert(one.last() == items[k]);
    assert(entries(one.drop_last(), (first + k) as nat) =~= Seq::<char>::empty());
    let line = decimal((first + k + 1) as nat) + seq!['.', ' '] + display_text(items[k])
        + seq!['\n'];
    assert(entries(one, (first + k) as nat) =~= line);
    let t = entries(items, first);
    let before = entries(a, first).len() as int;
    assert(t == entries(a, first) + (line + entries(tail, (first + k + 1) as nat)));
    assert(t.subrange(before, before + line.len()) =~= line);
}

/// Every page of a listing shows between one and ten entries, within the
/// listing.
pub proof fn lemma_page_bounds(n: nat, index: nat)
    requires
        index < page_count(n),
    ensures
        page_start(index) < page_end(n, index) <= n,
        page_end(n, index) <= page_start(index) + ITEMS_PER_PAGE,
{
    lemma_page_arith(n, index);
}

/// Writing the pages of a queue one after the other gives its whole
/// numbered listing: every track shows once, on its page, with its number
/// in the queue.
pub proof fn lemma_pages_cover_listing(items: Seq<MetadataView>)
    ensures
        concat_all(pages(items)) == entries(items, 0),
{
    let n = items.len();
    lemma_prefix_pages(items, page_count(n));
    lemma_page_arith(n, 0);
    assert(pages(items).subrange(0, page_count(n) as int) =~= pages(items));
    assert(items.subrange(0, n as int) =~= items);
}

} // verus!
