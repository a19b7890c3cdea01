use crunchyroll::common::BulkResult;
use crunchyroll::context::{Executor, Request};
use crunchyroll::error::CrunchyrollError;
use crunchyroll::media::{select_one, Episode, Media, MediaCollection, MediaKind, Movie, Series};
use std::sync::Arc;

fn object(keys: &[&str]) -> serde_json::Map<String, serde_json::Value> {
    let mut m = serde_json::Map::new();
    m.insert("id".to_string(), serde_json::Value::String("G1".to_string()));
    for k in keys {
        m.insert(k.to_string(), serde_json::Value::Object(serde_json::Map::new()));
    }
    m
}

#[test]
fn each_marker_selects_its_kind() {
    let cases = [
        ("series_metadata", MediaKind::Series),
        ("season_metadata", MediaKind::Season),
        ("episode_metadata", MediaKind::Episode),
        ("movie_listing_metadata", MediaKind::MovieListing),
        ("movie_metadata", MediaKind::Movie),
    ];
    for (key, kind) in cases {
        assert_eq!(MediaCollection::kind_of_object(&object(&[key])), Ok(kind));
    }
}

#[test]
fn no_marker_is_a_decode_error() {
    assert_eq!(
        MediaCollection::kind_of_object(&object(&[])),
        Err(CrunchyrollError::Decode("no metadata were found".to_string()))
    );
}

#[test]
fn two_markers_are_a_decode_error() {
    let r = MediaCollection::kind_of_object(&object(&["series_metadata", "movie_metadata"]));
    assert!(matches!(r, Err(CrunchyrollError::Decode(_))));
}

fn media_with_id(id: &str) -> Media<Series> {
    let mut m = Media::<Series>::default();
    m.id = id.to_string();
    m
}

#[test]
fn from_id_with_one_match() {
    let r = Media::from_bulk("G1", BulkResult { items: vec![media_with_id("G1")], total: 1 });
    assert_eq!(r.unwrap().id, "G1");
}

#[test]
fn from_id_with_no_match() {
    let r = Media::<Series>::from_bulk("G1", BulkResult { items: vec![], total: 0 });
    assert_eq!(
        r.unwrap_err(),
        CrunchyrollError::Input("no media could be found for id 'G1'".to_string())
    );
}

#[test]
fn from_id_with_two_matches() {
    let items = vec![media_with_id("G1"), media_with_id("G1")];
    let r = Media::from_bulk("G1", BulkResult { items, total: 2 });
    assert_eq!(
        r.unwrap_err(),
        CrunchyrollError::Internal("multiple media were found for id 'G1'".to_string())
    );
}

#[test]
fn collection_from_id_keeps_variant() {
    let items = vec![MediaCollection::Movie(Media::<Movie>::default())];
    let r = MediaCollection::from_bulk("M1", BulkResult { items, total: 1 }).unwrap();
    assert_eq!(r.kind(), MediaKind::Movie);
}

#[test]
fn select_one_returns_the_item() {
    assert_eq!(select_one("x", vec![42u8]), Ok(42));
}

fn executor(premium: bool) -> Arc<Executor> {
    Arc::new(Executor { bucket: "/cms".to_string(), premium, ..Executor::default() })
}

#[test]
fn bulk_binding_reaches_every_item() {
    let e = executor(false);
    let mut page = BulkResult { items: vec![media_with_id("a"), media_with_id("b"), media_with_id("c")], total: 3 };
    page.__set_executor(e.clone());
    assert_eq!(page.items.len(), 3);
    for m in &page.items {
        assert!(Arc::ptr_eq(m.executor.as_ref().unwrap(), &e));
    }
}

#[test]
fn collection_binding_reaches_media() {
    let e = executor(true);
    let mut c = MediaCollection::Series(media_with_id("s"));
    c.__set_executor(e.clone());
    match c {
        MediaCollection::Series(m) => assert_eq!(*m.executor.unwrap(), *e),
        _ => panic!("variant changed"),
    }
}

#[test]
fn playback_endpoint_needs_url() {
    let mut m = media_with_id("a");
    assert_eq!(
        m.playback_endpoint(),
        Err(CrunchyrollError::Request("no playback id available".to_string()))
    );
    m.playback_url = Some("https://p/1".to_string());
    assert_eq!(m.playback_endpoint(), Ok("https://p/1".to_string()));
}

#[test]
fn stream_key_prefers_stream_id() {
    let mut m = media_with_id("E1");
    assert_eq!(m.stream_key(), "E1");
    m.stream_id = Some("S9".to_string());
    assert_eq!(m.stream_key(), "S9");
}

#[test]
fn availability_by_premium() {
    let mut m = Media::<Episode>::default();
    m.metadata.is_premium_only = true;
    assert!(!m.available());
    m.executor = Some(executor(true));
    assert!(m.available());
    m.executor = Some(executor(false));
    assert!(!m.available());
    m.metadata.is_premium_only = false;
    assert!(m.available());
}
