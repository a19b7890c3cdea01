//! Locales as the service names them.
use vstd::prelude::*;

verus! {

/// A locale tag such as `en-US`. The empty tag stands for "no locale": a stream
/// without burned-in subtitles, or the default.
#[derive(Clone, Debug, PartialEq, Eq, Hash, Default)]
pub struct Locale {
    pub tag: String,
}

/// The key under which the stream listings file the variants without burned-in subtitles.
pub open spec fn sentinel_key() -> Seq<char> {
    ":"@
}

/// The locale that a stream listing's key names: the sentinel key stands for the empty locale.
pub open spec fn stream_locale(key: Seq<char>) -> Seq<char> {
    if key == sentinel_key() { Seq::empty() } else { key }
}

impl Locale {
    pub fn new(tag: String) -> (r: Locale)
        ensures
            r.tag@ == tag@,
    {
        Locale { tag }
    }

    /// The locale that stands for "none".
    pub fn none() -> (r: Locale)
        ensures
            r.tag@ == Seq::<char>::empty(),
    {
        Locale { tag: String::new() }
    }

    /// Reads a key of a stream listing, where `":"` stands for the empty locale.
    pub fn from_stream_key(key: String) -> (r: Locale)
        ensures
            r.tag@ == stream_locale(key@),
    {
        let sentinel = ":".to_owned();
        if key == sentinel {
            Locale::none()
        } else {
            Locale { tag: key }
        }
    }

    /// Whether the two locales have the same tag.
    pub fn same_as(&self, other: &Locale) -> (r: bool)
        ensures
            r == (self.tag@ == other.tag@),
    {
        self.tag == other.tag
    }
}

} // verus!
