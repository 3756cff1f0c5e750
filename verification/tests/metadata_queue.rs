use std::sync::Arc;
use dirustic::types::metadata_queue::{
    queue_listing, AuxMetadata, MetadataObject, ToEmbed, ToEmbedPageContent,
};

fn track(n: usize) -> Arc<MetadataObject> {
    Arc::new(MetadataObject::from(AuxMetadata {
        title: Some(format!("Song {n}")),
        source_url: Some(format!("https://example.com/{n}")),
        channel: Some(format!("Artist {n}")),
        thumbnail: Some(format!("https://example.com/{n}.jpg")),
    }))
}

fn tracks(count: usize) -> Vec<Arc<MetadataObject>> {
    (1..=count).map(track).collect()
}

fn line(n: usize, i: usize) -> String {
    format!("{n}. [**\"Song {i}\"**](https://example.com/{i}) from **Artist {i}**.\n")
}

#[test]
fn missing_fields_get_placeholders() {
    let m = MetadataObject::from(AuxMetadata { title: None, source_url: None, channel: None, thumbnail: None });
    assert_eq!(m.title(), "Unknown title");
    assert_eq!(m.source_url(), "Unknown source");
    assert_eq!(m.channel(), "Unknown channel");
    assert_eq!(m.thumbnail_url(), "");
}

#[test]
fn present_fields_are_kept() {
    let m = track(3);
    assert_eq!(m.title(), "Song 3");
    assert_eq!(m.source_url(), "https://example.com/3");
    assert_eq!(m.channel(), "Artist 3");
    assert_eq!(m.thumbnail_url(), "https://example.com/3.jpg");
}

#[test]
fn display_line() {
    assert_eq!(track(1).to_string(), "[**\"Song 1\"**](https://example.com/1) from **Artist 1**.");
}

#[test]
fn embed_of_a_track() {
    let e = track(2).to_embed();
    assert_eq!(e.title.as_deref(), Some("Song 2"));
    assert_eq!(e.description.as_deref(), Some("Artist 2"));
    assert_eq!(e.url.as_deref(), Some("https://example.com/2"));
    assert_eq!(e.thumbnail.as_deref(), Some("https://example.com/2.jpg"));
}

#[test]
fn empty_queue_has_no_pages() {
    let v = tracks(0);
    assert!(v.to_paged_embed().is_empty());
    assert_eq!(v.page(0), "");
    assert_eq!(queue_listing(&v), "");
}

#[test]
fn ten_tracks_fill_one_page() {
    let v = tracks(10);
    let pages = v.to_paged_embed();
    assert_eq!(pages.len(), 1);
    let expected: String = (1..=10).map(|i| line(i, i)).collect();
    assert_eq!(pages[0], expected);
}

#[test]
fn eleventh_track_opens_a_second_page() {
    let v = tracks(11);
    let pages = v.to_paged_embed();
    assert_eq!(pages.len(), 2);
    assert_eq!(pages[1], line(11, 11));
    assert_eq!(v.page(1), line(11, 11));
}

#[test]
fn page_numbers_continue_across_pages() {
    let v = tracks(25);
    assert_eq!(v.to_paged_embed().len(), 3);
    let expected: String = (21..=25).map(|i| line(i, i)).collect();
    assert_eq!(v.page(2), expected);
}

#[test]
fn pages_together_give_the_queue_listing() {
    for n in [0usize, 1, 9, 10, 11, 20, 23] {
        let v = tracks(n);
        assert_eq!(v.to_paged_embed().concat(), queue_listing(&v));
    }
}

#[test]
fn queue_listing_numbers_from_one() {
    let v = tracks(2);
    assert_eq!(queue_listing(&v), format!("{}{}", line(1, 1), line(2, 2)));
}
