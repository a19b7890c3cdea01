//! Series, seasons, episodes, movie listings and movies, and the collection that
//! holds any one of them.
use std::sync::Arc;
use vstd::prelude::*;

use crate::common::{BulkResult, Image};
use crate::context::{holds, Executor, Request};
use crate::error::{concat3, CrunchyrollError};
use crate::json::{has_key, object_keys};
use crate::locale::Locale;

verus! {

/// A metadata payload that a [`Media`] can carry.
pub trait Video: Request {}

/// Metadata of a series.
#[derive(Clone, Debug, Default)]
pub struct Series {
    pub extended_description: String,
    pub series_launch_year: Option<u32>,
    pub episode_count: u32,
    pub season_count: u32,
    pub is_subbed: bool,
    pub is_dubbed: bool,
    pub is_simulcast: bool,
    pub audio_locales: Vec<Locale>,
    pub subtitle_locales: Vec<Locale>,
    pub categories: Vec<String>,
    pub maturity_ratings: Vec<String>,
    pub is_mature: bool,
    pub mature_blocked: bool,
    pub availability_notes: String,
}

/// Metadata of a season.
#[derive(Clone, Debug, Default)]
pub struct Season {
    pub audio_locales: Vec<Locale>,
    pub subtitle_locales: Vec<Locale>,
    pub season_number: u32,
    pub maturity_ratings: Vec<String>,
    pub is_mature: bool,
    pub mature_blocked: bool,
}

/// Metadata of an episode. Durations are in milliseconds; dates are milliseconds
/// since the Unix epoch.
#[derive(Clone, Debug, Default)]
pub struct Episode {
    pub series_id: String,
    pub series_title: String,
    pub series_slug_title: String,
    pub season_id: String,
    pub season_title: String,
    pub season_slug_title: String,
    pub season_number: u32,
    pub episode: String,
    pub episode_number: u32,
    pub sequence_number: u32,
    pub duration: i64,
    pub episode_air_date: i64,
    pub upload_date: i64,
    pub free_available_date: i64,
    pub premium_available_date: i64,
    pub availability_starts: i64,
    pub availability_ends: i64,
    pub is_subbed: bool,
    pub is_dubbed: bool,
    pub closed_captions_available: bool,
    pub audio_locale: String,
    pub subtitle_locales: Vec<Locale>,
    pub is_clip: bool,
    pub is_premium_only: bool,
    pub categories: Vec<String>,
    pub maturity_ratings: Vec<String>,
    pub is_mature: bool,
    pub mature_blocked: bool,
    pub available_offline: bool,
    pub availability_notes: String,
    pub eligible_region: String,
}

/// Metadata of a movie listing. Durations are in milliseconds; dates are
/// milliseconds since the Unix epoch.
#[derive(Clone, Debug, Default)]
pub struct MovieListing {
    pub first_movie_id: String,
    pub extended_description: String,
    pub movie_release_year: u32,
    pub duration: i64,
    pub is_subbed: bool,
    pub is_dubbed: bool,
    pub subtitle_locales: Vec<Locale>,
    pub is_premium_only: bool,
    pub free_available_date: i64,
    pub premium_available_date: i64,
    pub categories: Vec<String>,
    pub maturity_ratings: Vec<String>,
    pub is_mature: bool,
    pub mature_blocked: bool,
    pub available_offline: bool,
    pub availability_notes: String,
}

/// Metadata of a movie. Durations are in milliseconds.
#[derive(Clone, Debug, Default)]
pub struct Movie {
    pub movie_listing_id: String,
    pub movie_listing_title: String,
    pub movie_listing_slug_title: String,
    pub duration: i64,
    pub is_subbed: bool,
    pub is_dubbed: bool,
    pub closed_captions_available: bool,
    pub is_premium_only: bool,
    pub maturity_ratings: Vec<String>,
    pub is_mature: bool,
    pub mature_blocked: bool,
    pub available_offline: bool,
    pub availability_notes: String,
}

impl Request for Series {
    open spec fn bound_to(&self, executor: Executor) -> bool {
        true
    }

    fn __set_executor(&mut self, executor: Arc<Executor>) {
    }
}

impl Request for Season {
    open spec fn bound_to(&self, executor: Executor) -> bool {
        true
    }

    fn __set_executor(&mut self, executor: Arc<Executor>) {
    }
}

impl Request for Episode {
    open spec fn bound_to(&self, executor: Executor) -> bool {
        true
    }

    fn __set_executor(&mut self, executor: Arc<Executor>) {
    }
}

impl Request for MovieListing {
    open spec fn bound_to(&self, executor: Executor) -> bool {
        true
    }

    fn __set_executor(&mut self, executor: Arc<Executor>) {
    }
}

impl Request for Movie {
    open spec fn bound_to(&self, executor: Executor) -> bool {
        true
    }

    fn __set_executor(&mut self, executor: Arc<Executor>) {
    }
}

impl Video for Series {}

impl Video for Season {}

impl Video for Episode {}

impl Video for MovieListing {}

impl Video for Movie {}

/// The image sets of a media.
#[derive(Clone, Debug, Default)]
pub struct MediaImages {
    pub thumbnail: Option<Vec<Vec<Image>>>,
    pub poster_tall: Option<Vec<Vec<Image>>>,
    pub poster_wide: Option<Vec<Vec<Image>>>,
    pub promo_image: Option<Vec<Vec<Image>>>,
}

/// A series, season, episode, movie listing or movie; `M` says which.
#[derive(Clone, Debug, Default)]
pub struct Media<M> {
    /// The session this media was fetched with, once bound.
    pub executor: Option<Arc<Executor>>,
    pub id: String,
    pub stream_id: Option<String>,
    pub playback_url: Option<String>,
    pub external_id: String,
    pub channel_id: String,
    pub slug: String,
    pub title: String,
    pub slug_title: String,
    pub promo_title: String,
    pub description: String,
    pub promo_description: String,
    pub metadata: M,
    pub images: Option<MediaImages>,
}

impl<M: Video> Request for Media<M> {
    open spec fn bound_to(&self, executor: Executor) -> bool {
        holds(self.executor, executor) && self.metadata.bound_to(executor)
    }

    /// Binds the context to the media and to its metadata; nothing else changes.
    fn __set_executor(&mut self, executor: Arc<Executor>)
        ensures
            final(self).id == old(self).id,
            final(self).stream_id == old(self).stream_id,
            final(self).playback_url == old(self).playback_url,
            final(self).external_id == old(self).external_id,
            final(self).channel_id == old(self).channel_id,
            final(self).slug == old(self).slug,
            final(self).title == old(self).title,
            final(self).slug_title == old(self).slug_title,
            final(self).promo_title == old(self).promo_title,
            final(self).description == old(self).description,
            final(self).promo_description == old(self).promo_description,
            final(self).images == old(self).images,
    {
        self.metadata.__set_executor(crate::context::share(&executor));
        self.executor = Some(executor);
    }
}

/// Any one kind of media.
#[derive(Clone, Debug)]
pub enum MediaCollection {
    Series(Media<Series>),
    Season(Media<Season>),
    Episode(Media<Episode>),
    MovieListing(Media<MovieListing>),
    Movie(Media<Movie>),
}

impl Request for MediaCollection {
    open spec fn bound_to(&self, executor: Executor) -> bool {
        match self {
            MediaCollection::Series(m) => m.bound_to(executor),
            MediaCollection::Season(m) => m.bound_to(executor),
            MediaCollection::Episode(m) => m.bound_to(executor),
            MediaCollection::MovieListing(m) => m.bound_to(executor),
            MediaCollection::Movie(m) => m.bound_to(executor),
        }
    }

    fn __set_executor(&mut self, executor: Arc<Executor>) {
        match self {
            MediaCollection::Series(m) => m.__set_executor(executor),
            MediaCollection::Season(m) => m.__set_executor(executor),
            MediaCollection::Episode(m) => m.__set_executor(executor),
            MediaCollection::MovieListing(m) => m.__set_executor(executor),
            MediaCollection::Movie(m) => m.__set_executor(executor),
        }
    }
}

/// Which kind of media a collection holds.
#[derive(Clone, Copy, Debug, PartialEq, Eq, Structural)]
pub enum MediaKind {
    Series,
    Season,
    Episode,
    MovieListing,
    Movie,
}

/// The key whose presence in a JSON object marks it as a media of kind `k`.
pub open spec fn marker_key(k: MediaKind) -> Seq<char> {
    match k {
        MediaKind::Series => "series_metadata"@,
        MediaKind::Season => "season_metadata"@,
        MediaKind::Episode => "episode_metadata"@,
        MediaKind::MovieListing => "movie_listing_metadata"@,
        MediaKind::Movie => "movie_metadata"@,
    }
}

pub open spec fn has_marker(keys: Set<Seq<char>>, k: MediaKind) -> bool {
    keys.contains(marker_key(k))
}

/// How many of the five marker keys an object with `keys` has.
pub open spec fn marker_count(keys: Set<Seq<char>>) -> nat {
    (if has_marker(keys, MediaKind::Series) { 1nat } else { 0nat })
        + (if has_marker(keys, MediaKind::Season) { 1nat } else { 0nat })
        + (if has_marker(keys, MediaKind::Episode) { 1nat } else { 0nat })
        + (if has_marker(keys, MediaKind::MovieListing) { 1nat } else { 0nat })
        + (if has_marker(keys, MediaKind::Movie) { 1nat } else { 0nat })
}

/// The first marker, in the order series, season, episode, movie listing, movie,
/// that an object with `keys` has.
pub open spec fn first_marker(keys: Set<Seq<char>>) -> Option<MediaKind> {
    if has_marker(keys, MediaKind::Series) {
        Some(MediaKind::Series)
    } else if has_marker(keys, MediaKind::Season) {
        Some(MediaKind::Season)
    } else if has_marker(keys, MediaKind::Episode) {
        Some(MediaKind::Episode)
    } else if has_marker(keys, MediaKind::MovieListing) {
        Some(MediaKind::MovieListing)
    } else if has_marker(keys, MediaKind::Movie) {
        Some(MediaKind::Movie)
    } else {
        None
    }
}

/// The message of the error for an object without a marker key.
pub open spec fn no_marker_message() -> Seq<char> {
    "no metadata were found"@
}

/// The message of the error for an object with more than one marker key.
pub open spec fn many_markers_message() -> Seq<char> {
    "more than one kind of metadata was found"@
}

/// Whether `r` is what resolving an object with `keys` gives.
pub open spec fn resolves_to(keys: Set<Seq<char>>, r: Result<MediaKind, CrunchyrollError>) -> bool {
    if marker_count(keys) == 1 {
        r == Ok::<MediaKind, CrunchyrollError>(first_marker(keys).unwrap())
    } else if marker_count(keys) == 0 {
        r matches Err(CrunchyrollError::Decode(m)) && m@ == no_marker_message()
    } else {
        r matches Err(CrunchyrollError::Decode(m)) && m@ == many_markers_message()
    }
}

/// An object with exactly one marker key resolves to the kind of that key; one
/// with none, or with more than one, fails with a decode error.
pub proof fn lemma_dispatch_by_marker(keys: Set<Seq<char>>, k: MediaKind, r: Result<MediaKind, CrunchyrollError>)
    requires
        resolves_to(keys, r),
    ensures
        has_marker(keys, k) && (forall|o: MediaKind| o != k ==> !has_marker(keys, o)) ==> r == Ok::<MediaKind, CrunchyrollError>(k),
        (forall|o: MediaKind| !has_marker(keys, o)) ==> r matches Err(CrunchyrollError::Decode(_)),
        r matches Ok(j) ==> has_marker(keys, j),
{
    if has_marker(keys, k) && (forall|o: MediaKind| o != k ==> !has_marker(keys, o)) {
        assert(!has_marker(keys, MediaKind::Series) || k == MediaKind::Series);
        assert(!has_marker(keys, MediaKind::Season) || k == MediaKind::Season);
        assert(!has_marker(keys, MediaKind::Episode) || k == MediaKind::Episode);
        assert(!has_marker(keys, MediaKind::MovieListing) || k == MediaKind::MovieListing);
        assert(!has_marker(keys, MediaKind::Movie) || k == MediaKind::Movie);
    }
    if forall|o: MediaKind| !has_marker(keys, o) {
        assert(!has_marker(keys, MediaKind::Series));
        assert(!has_marker(keys, MediaKind::Season));
        assert(!has_marker(keys, MediaKind::Episode));
        assert(!has_marker(keys, MediaKind::MovieListing));
        assert(!has_marker(keys, MediaKind::Movie));
    }
}

impl MediaCollection {
    /// Which kind of media a JSON object encodes, told by which marker key it has.
    pub fn kind_of_object(obj: &serde_json::Map<String, serde_json::Value>) -> (r: Result<MediaKind, CrunchyrollError>)
        ensures
            resolves_to(object_keys(*obj), r),
    {
        let series = has_key(obj, "series_metadata");
        let season = has_key(obj, "season_metadata");
        let episode = has_key(obj, "episode_metadata");
        let movie_listing = has_key(obj, "movie_listing_metadata");
        let movie = has_key(obj, "movie_metadata");
        let count: u32 = (if series { 1u32 } else { 0u32 }) + (if season { 1u32 } else { 0u32 })
            + (if episode { 1u32 } else { 0u32 }) + (if movie_listing { 1u32 } else { 0u32 })
            + (if movie { 1u32 } else { 0u32 });
        if count == 0 {
            Err(CrunchyrollError::Decode("no metadata were found".to_owned()))
        } else if count > 1 {
            Err(CrunchyrollError::Decode("more than one kind of metadata was found".to_owned()))
        } else if series {
            Ok(MediaKind::Series)
        } else if season {
            Ok(MediaKind::Season)
        } else if episode {
            Ok(MediaKind::Episode)
        } else if movie_listing {
            Ok(MediaKind::MovieListing)
        } else {
            Ok(MediaKind::Movie)
        }
    }

    /// The kind of media this collection holds.
    pub fn kind(&self) -> (r: MediaKind)
        ensures
            r == self.kind_spec(),
    {
        match self {
            MediaCollection::Series(_) => MediaKind::Series,
            MediaCollection::Season(_) => MediaKind::Season,
            MediaCollection::Episode(_) => MediaKind::Episode,
            MediaCollection::MovieListing(_) => MediaKind::MovieListing,
            MediaCollection::Movie(_) => MediaKind::Movie,
        }
    }

    pub open spec fn kind_spec(&self) -> MediaKind {
        match self {
            MediaCollection::Series(_) => MediaKind::Series,
            MediaCollection::Season(_) => MediaKind::Season,
            MediaCollection::Episode(_) => MediaKind::Episode,
            MediaCollection::MovieListing(_) => MediaKind::MovieListing,
            MediaCollection::Movie(_) => MediaKind::Movie,
        }
    }

    /// The one media of the page that a lookup of `id` returned.
    pub fn from_bulk(id: &str, result: BulkResult<MediaCollection>) -> (r: Result<MediaCollection, CrunchyrollError>)
        ensures
            single_outcome(id@, result.items@, r),
    {
        select_one(id, result.items)
    }
}

/// The message of the error for a lookup of `id` that found nothing.
pub open spec fn not_found_message(id: Seq<char>) -> Seq<char> {
    "no media could be found for id '"@ + id + "'"@
}

/// The message of the error for a lookup of `id` that found more than one media.
pub open spec fn ambiguous_message(id: Seq<char>) -> Seq<char> {
    "multiple media were found for id '"@ + id + "'"@
}

/// Whether `r` is what a lookup of `id` gives when it found `items`: the item
/// when there is exactly one; an input error when there is none; an internal
/// error when there are several, never one of them.
pub open spec fn single_outcome<T>(id: Seq<char>, items: Seq<T>, r: Result<T, CrunchyrollError>) -> bool {
    if items.len() == 1 {
        r == Ok::<T, CrunchyrollError>(items[0])
    } else if items.len() == 0 {
        r matches Err(CrunchyrollError::Input(m)) && m@ == not_found_message(id)
    } else {
        r matches Err(CrunchyrollError::Internal(m)) && m@ == ambiguous_message(id)
    }
}

/// The one item of `items`, found by a lookup of `id`.
pub fn select_one<T>(id: &str, items: Vec<T>) -> (r: Result<T, CrunchyrollError>)
    ensures
        single_outcome(id@, items@, r),
{
    let mut items = items;
    if items.len() == 0 {
        Err(CrunchyrollError::Input(concat3("no media could be found for id '", id, "'")))
    } else if items.len() >= 2 {
        Err(CrunchyrollError::Internal(concat3("multiple media were found for id '", id, "'")))
    } else {
        Ok(items.remove(0))
    }
}

impl<M: Video> Media<M> {
    /// The one media of the page that a lookup of `id` returned.
    pub fn from_bulk(id: &str, result: BulkResult<Media<M>>) -> (r: Result<Media<M>, CrunchyrollError>)
        ensures
            single_outcome(id@, result.items@, r),
    {
        select_one(id, result.items)
    }

    /// Where this media's playback streams are listed; a request error when it has none.
    pub fn playback_endpoint(&self) -> (r: Result<String, CrunchyrollError>)
        ensures
            match self.playback_url {
                Some(u) => r == Ok::<String, CrunchyrollError>(u),
                None => r matches Err(CrunchyrollError::Request(m)) && m@ == "no playback id available"@,
            },
    {
        match &self.playback_url {
            Some(u) => Ok(u.clone()),
            None => Err(CrunchyrollError::Request("no playback id available".to_owned())),
        }
    }

    /// The id that this media's streams are listed under: its stream id, else its own id.
    pub fn stream_key(&self) -> (r: String)
        ensures
            r@ == match self.stream_id {
                Some(s) => s@,
                None => self.id@,
            },
    {
        match &self.stream_id {
            Some(s) => s.clone(),
            None => self.id.clone(),
        }
    }
}

/// Whether the session behind `executor` may watch premium content.
pub open spec fn premium_of(executor: Option<Arc<Executor>>) -> bool {
    match executor {
        Some(e) => e.premium,
        None => false,
    }
}

fn session_is_premium(executor: &Option<Arc<Executor>>) -> (r: bool)
    ensures
        r == premium_of(*executor),
{
    match executor {
        Some(e) => e.premium,
        None => false,
    }
}

impl Media<Episode> {
    /// Whether the episode can be watched: the session is premium or the episode is free.
    pub fn available(&self) -> (r: bool)
        ensures
            r == (premium_of(self.executor) || !self.metadata.is_premium_only),
    {
        session_is_premium(&self.executor) || !self.metadata.is_premium_only
    }
}

impl Media<Movie> {
    /// Whether the movie can be watched: the session is premium or the movie is free.
    pub fn available(&self) -> (r: bool)
        ensures
            r == (premium_of(self.executor) || !self.metadata.is_premium_only),
    {
        session_is_premium(&self.executor) || !self.metadata.is_premium_only
    }
}

} // verus!
