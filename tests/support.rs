use crunchyroll::context::Executor;
use crunchyroll::decode::string_to_enum;
use crunchyroll::endpoint::locale_query;
use crunchyroll::locale::Locale;
use crunchyroll::endpoint::{
    api_streams_endpoint, episodes_endpoint, movies_endpoint, objects_endpoint, seasons_endpoint, similar_endpoint, streams_endpoint,
};
use crunchyroll::error::{concat3, CrunchyrollError};

#[derive(Debug, PartialEq)]
enum Color {
    Red,
}

impl TryFrom<String> for Color {
    type Error = ();

    fn try_from(v: String) -> Result<Self, ()> {
        if v == "red" { Ok(Color::Red) } else { Err(()) }
    }
}

#[test]
fn string_to_enum_reads_known_value() {
    assert_eq!(string_to_enum::<Color>("red".to_string()), Ok(Color::Red));
}

#[test]
fn string_to_enum_quotes_unknown_value() {
    assert_eq!(
        string_to_enum::<Color>("blue".to_string()),
        Err(CrunchyrollError::Decode("failed to decode `blue` to enum".to_string()))
    );
}

#[test]
fn endpoints_are_built_exactly() {
    assert_eq!(objects_endpoint("b", "G1"), "https://beta.crunchyroll.com/cms/v2/b/objects/G1");
    assert_eq!(seasons_endpoint("b"), "https://beta.crunchyroll.com/cms/v2/b/seasons");
    assert_eq!(episodes_endpoint("b"), "https://beta.crunchyroll.com/cms/v2/b/episodes");
    assert_eq!(movies_endpoint("b"), "https://beta.crunchyroll.com/cms/v2/b/movies");
    assert_eq!(streams_endpoint("b", "S1"), "https://beta.crunchyroll.com/cms/v2/b/videos/S1/streams");
    assert_eq!(api_streams_endpoint("b", "S1"), "https://beta-api.crunchyroll.com/cms/v2/b/videos/S1/streams");
    assert_eq!(similar_endpoint("acc"), "https://beta.crunchyroll.com/content/v1/acc/similar_to");
}

#[test]
fn concat_joins_in_order() {
    assert_eq!(concat3("a", "bc", ""), "abc");
}

#[test]
fn locale_query_follows_session_locale() {
    let mut e = Executor::default();
    assert!(locale_query(&e).is_empty());
    e.locale = Locale::new("de-DE".to_string());
    assert_eq!(locale_query(&e), vec![("locale".to_string(), "de-DE".to_string())]);
}
