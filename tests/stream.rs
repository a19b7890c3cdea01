use crunchyroll::context::{Executor, Request};
use crunchyroll::locale::Locale;
use crunchyroll::stream::{regroup_streams, StreamSubtitle, VideoStream};
use std::sync::Arc;

fn s(x: &str) -> String {
    x.to_string()
}

#[test]
fn sentinel_key_becomes_empty_locale() {
    let raw = vec![(s("adaptive_hls"), vec![(s(":"), 1u8)])];
    let out = regroup_streams(raw);
    assert_eq!(out.len(), 1);
    assert_eq!(out[0].0, Locale::none());
    assert_eq!(out[0].1, vec![(s("adaptive_hls"), 1u8)]);
}

#[test]
fn formats_regroup_under_locales() {
    let raw = vec![
        (s("adaptive_dash"), vec![(s("en-US"), 1u8), (s(":"), 2u8)]),
        (s("adaptive_hls"), vec![(s(":"), 3u8), (s("de-DE"), 4u8), (s("en-US"), 5u8)]),
    ];
    let out = regroup_streams(raw);
    assert_eq!(
        out,
        vec![
            (Locale::new(s("en-US")), vec![(s("adaptive_dash"), 1u8), (s("adaptive_hls"), 5u8)]),
            (Locale::none(), vec![(s("adaptive_dash"), 2u8), (s("adaptive_hls"), 3u8)]),
            (Locale::new(s("de-DE")), vec![(s("adaptive_hls"), 4u8)]),
        ]
    );
}

#[test]
fn empty_table_stays_empty() {
    let out = regroup_streams::<u8>(vec![(s("adaptive_dash"), vec![])]);
    assert!(out.is_empty());
}

#[test]
fn locale_from_stream_key() {
    assert_eq!(Locale::from_stream_key(s(":")).tag, "");
    assert_eq!(Locale::from_stream_key(s("ja-JP")).tag, "ja-JP");
    assert!(Locale::new(s("a")).same_as(&Locale::new(s("a"))));
    assert!(!Locale::new(s("a")).same_as(&Locale::none()));
}

#[test]
fn stream_binding_reaches_subtitles() {
    let e = Arc::new(Executor::default());
    let sub = StreamSubtitle { executor: None, locale: Locale::new(s("de-DE")), url: s("u"), format: s("ass") };
    let mut v = VideoStream { subtitles: vec![(Locale::new(s("de-DE")), sub.clone()), (Locale::new(s("fr-FR")), sub)], ..VideoStream::default() };
    assert!(v.__get_executor().is_none());
    v.__set_executor(e.clone());
    assert!(Arc::ptr_eq(&v.__get_executor().unwrap(), &e));
    for (_, t) in &v.subtitles {
        assert!(Arc::ptr_eq(t.executor.as_ref().unwrap(), &e));
    }
    assert_eq!(v.subtitles[1].0, Locale::new(s("fr-FR")));
}
