//! The addresses of the catalogue endpoints.
use vstd::prelude::*;

use crate::context::Executor;
use crate::error::concat3;

verus! {

/// The root of the catalogue endpoints.
pub open spec fn cms_root() -> Seq<char> {
    "https://beta.crunchyroll.com/cms/v2/"@
}

/// Where the media with `id` is looked up.
pub fn objects_endpoint(bucket: &str, id: &str) -> (r: String)
    ensures
        r@ == cms_root() + bucket@ + "/objects/"@ + id@,
{
    let mut r = concat3("https://beta.crunchyroll.com/cms/v2/", bucket, "/objects/");
    r.push_str(id);
    r
}

/// Where the seasons of a series are listed.
pub fn seasons_endpoint(bucket: &str) -> (r: String)
    ensures
        r@ == cms_root() + bucket@ + "/seasons"@,
{
    concat3("https://beta.crunchyroll.com/cms/v2/", bucket, "/seasons")
}

/// Where the episodes of a season are listed.
pub fn episodes_endpoint(bucket: &str) -> (r: String)
    ensures
        r@ == cms_root() + bucket@ + "/episodes"@,
{
    concat3("https://beta.crunchyroll.com/cms/v2/", bucket, "/episodes")
}

/// Where the movies of a movie listing are listed.
pub fn movies_endpoint(bucket: &str) -> (r: String)
    ensures
        r@ == cms_root() + bucket@ + "/movies"@,
{
    concat3("https://beta.crunchyroll.com/cms/v2/", bucket, "/movies")
}

/// Where the video streams listed under `stream_key` are.
pub fn streams_endpoint(bucket: &str, stream_key: &str) -> (r: String)
    ensures
        r@ == cms_root() + bucket@ + "/videos/"@ + stream_key@ + "/streams"@,
{
    let mut r = concat3("https://beta.crunchyroll.com/cms/v2/", bucket, "/videos/");
    r.push_str(stream_key);
    r.push_str("/streams");
    r
}

/// Where the video streams with `id` are, on the API host.
pub fn api_streams_endpoint(bucket: &str, id: &str) -> (r: String)
    ensures
        r@ == "https://beta-api.crunchyroll.com/cms/v2/"@ + bucket@ + "/videos/"@ + id@ + "/streams"@,
{
    let mut r = concat3("https://beta-api.crunchyroll.com/cms/v2/", bucket, "/videos/");
    r.push_str(id);
    r.push_str("/streams");
    r
}

/// Where the media similar to another are listed for an account.
pub fn similar_endpoint(account_id: &str) -> (r: String)
    ensures
        r@ == "https://beta.crunchyroll.com/content/v1/"@ + account_id@ + "/similar_to"@,
{
    concat3("https://beta.crunchyroll.com/content/v1/", account_id, "/similar_to")
}

/// The query that catalogue requests of a session carry: its locale, when it has one.
pub fn locale_query(executor: &Executor) -> (r: Vec<(String, String)>)
    ensures
        executor.locale.tag@.len() == 0 ==> r@.len() == 0,
        executor.locale.tag@.len() > 0 ==> r@.len() == 1 && r@[0].0@ == "locale"@ && r@[0].1@ == executor.locale.tag@,
{
    if executor.locale.tag.as_str().is_empty() {
        Vec::new()
    } else {
        vec![("locale".to_owned(), executor.locale.tag.clone())]
    }
}

} // verus!
