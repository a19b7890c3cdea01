//! Stream listings of an episode or movie, and the regrouping of their variant
//! tables from format-first to locale-first.
use std::sync::Arc;
use vstd::prelude::*;

use crate::context::{holds, share, Executor, Request};
use crate::locale::{sentinel_key, stream_locale, Locale};

verus! {

/// A locale-first group: the formats and payloads filed under one locale.
pub type Group<P> = (Seq<char>, Seq<(Seq<char>, P)>);

/// The table with `(format, p)` filed under `loc`: appended to the first group of
/// `loc`, or as a new group at the end when there is none.
pub open spec fn insert_spec<P>(g: Seq<Group<P>>, loc: Seq<char>, format: Seq<char>, p: P) -> Seq<Group<P>>
    decreases g.len(),
{
    if g.len() == 0 {
        seq![(loc, seq![(format, p)])]
    } else if g[0].0 == loc {
        g.update(0, (loc, g[0].1.push((format, p))))
    } else {
        seq![g[0]] + insert_spec(g.drop_first(), loc, format, p)
    }
}

/// The table `g` with every `(locale key, payload)` of one format filed in order.
pub open spec fn file_format<P>(g: Seq<Group<P>>, format: Seq<char>, entries: Seq<(Seq<char>, P)>) -> Seq<Group<P>>
    decreases entries.len(),
{
    if entries.len() == 0 {
        g
    } else {
        let last = entries.last();
        insert_spec(file_format(g, format, entries.drop_last()), stream_locale(last.0), format, last.1)
    }
}

/// The locale-first table of a format-first one: formats in order, and within a
/// format its locale keys in order, the sentinel key read as the empty locale.
pub open spec fn regrouped<P>(raw: Seq<(Seq<char>, Seq<(Seq<char>, P)>)>) -> Seq<Group<P>>
    decreases raw.len(),
{
    if raw.len() == 0 {
        Seq::empty()
    } else {
        file_format(regrouped(raw.drop_last()), raw.last().0, raw.last().1)
    }
}

pub open spec fn entries_view<P>(e: Seq<(String, P)>) -> Seq<(Seq<char>, P)> {
    e.map_values(|x: (String, P)| (x.0@, x.1))
}

pub open spec fn raw_view<P>(raw: Seq<(String, Vec<(String, P)>)>) -> Seq<(Seq<char>, Seq<(Seq<char>, P)>)> {
    raw.map_values(|e: (String, Vec<(String, P)>)| (e.0@, entries_view(e.1@)))
}

pub open spec fn table_view<P>(t: Seq<(Locale, Vec<(String, P)>)>) -> Seq<Group<P>> {
    t.map_values(|e: (Locale, Vec<(String, P)>)| (e.0.tag@, entries_view(e.1@)))
}

proof fn lemma_insert_skips<P>(g: Seq<Group<P>>, i: int, loc: Seq<char>, format: Seq<char>, p: P)
    requires
        0 <= i <= g.len(),
        forall|j: int| 0 <= j < i ==> g[j].0 != loc,
    ensures
        insert_spec(g, loc, format, p) == g.subrange(0, i) + insert_spec(g.subrange(i, g.len() as int), loc, format, p),
    decreases i,
{
    if i > 0 {
        let t = g.drop_first();
        assert forall|j: int| 0 <= j < i - 1 implies t[j].0 != loc by {
            assert(t[j] == g[j + 1]);
        }
        lemma_insert_skips(t, i - 1, loc, format, p);
        assert(t.subrange(i - 1, t.len() as int) =~= g.subrange(i, g.len() as int));
        assert(seq![g[0]] + t.subrange(0, i - 1) =~= g.subrange(0, i));
        assert(g[0].0 != loc);
    } else {
        assert(g.subrange(0, 0) + insert_spec(g.subrange(0, g.len() as int), loc, format, p)
            =~= insert_spec(g, loc, format, p)) by {
            assert(g.subrange(0, g.len() as int) =~= g);
        }
    }
}

/// Files `(format, p)` under `loc` in `table`.
fn insert_entry<P>(table: &mut Vec<(Locale, Vec<(String, P)>)>, loc: Locale, format: String, p: P)
    ensures
        table_view(final(table)@) == insert_spec(table_view(old(table)@), loc.tag@, format@, p),
{
    let ghost g = table_view(table@);
    let n = table.len();
    let mut i: usize = 0;
    while i < n
        invariant
            n == table@.len(),
            table@ == old(table)@,
            g == table_view(table@),
            0 <= i <= n,
            forall|j: int| 0 <= j < i ==> g[j].0 != loc.tag@,
        decreases n - i,
    {
        if table[i].0.same_as(&loc) {
            proof {
                lemma_insert_skips(g, i as int, loc.tag@, format@, p);
                assert(g.subrange(i as int, g.len() as int)[0] == g[i as int]);
            }
            table[i].1.push((format, p));
            proof {
                let s = g.subrange(i as int, g.len() as int);
                assert(table_view(table@) =~= g.subrange(0, i as int) + insert_spec(s, loc.tag@, format@, p)) by {
                    assert(entries_view(table@[i as int].1@) =~= g[i as int].1.push((format@, p)));
                }
            }
            return;
        }
        i = i + 1;
    }
    proof {
        lemma_insert_skips(g, n as int, loc.tag@, format@, p);
    }
    table.push((loc, vec![(format, p)]));
    proof {
        assert(entries_view(table@[n as int].1@) =~= seq![(format@, p)]);
        assert(table_view(table@) =~= g.subrange(0, n as int) + insert_spec(g.subrange(n as int, n as int), loc.tag@, format@, p));
    }
}

/// Regroups a format-first variant table (format, then locale key, then payload)
/// into a locale-first one (locale, then format, then payload). The sentinel key
/// `":"` is read as the empty locale.
pub fn regroup_streams<P>(raw: Vec<(String, Vec<(String, P)>)>) -> (r: Vec<(Locale, Vec<(String, P)>)>)
    ensures
        table_view(r@) == regrouped(raw_view(raw@)),
        locales_distinct(table_view(r@)),
{
    let ghost rv = raw_view(raw@);
    let mut raw = raw;
    let mut out: Vec<(Locale, Vec<(String, P)>)> = Vec::new();
    let n = raw.len();
    let mut k: usize = 0;
    proof {
        assert(table_view(out@) =~= regrouped(rv.subrange(0, 0)));
        assert(raw_view(raw@) =~= rv.subrange(0, n as int));
    }
    while k < n
        invariant
            n == rv.len(),
            0 <= k <= n,
            raw@.len() == n - k,
            raw_view(raw@) == rv.subrange(k as int, n as int),
            table_view(out@) == regrouped(rv.subrange(0, k as int)),
        decreases n - k,
    {
        let ghost before = raw@;
        let (format, entries) = raw.remove(0);
        proof {
            assert(raw_view(before)[0] == rv[k as int]);
            assert forall|i: int| 0 <= i < raw@.len() implies raw_view(raw@)[i] == rv[k + 1 + i] by {
                assert(raw@[i] == before[i + 1]);
                assert(raw_view(before)[i + 1] == rv.subrange(k as int, n as int)[i + 1]);
            }
            assert(raw_view(raw@) =~= rv.subrange(k as int + 1, n as int));
        }
        let ghost ev = entries_view(entries@);
        let ghost start = table_view(out@);
        let mut entries = entries;
        let m = entries.len();
        let mut j: usize = 0;
        proof {
            assert(entries_view(entries@) =~= ev.subrange(0, m as int));
            assert(file_format(start, format@, ev.subrange(0, 0)) == start);
        }
        while j < m
            invariant
                m == ev.len(),
                0 <= j <= m,
                entries@.len() == m - j,
                entries_view(entries@) == ev.subrange(j as int, m as int),
                table_view(out@) == file_format(start, format@, ev.subrange(0, j as int)),
            decreases m - j,
        {
            let ghost eb = entries@;
            let (key, p) = entries.remove(0);
            proof {
                assert(entries_view(eb)[0] == ev[j as int]);
                assert forall|i: int| 0 <= i < entries@.len() implies entries_view(entries@)[i] == ev[j + 1 + i] by {
                    assert(entries@[i] == eb[i + 1]);
                    assert(entries_view(eb)[i + 1] == ev.subrange(j as int, m as int)[i + 1]);
                }
                assert(entries_view(entries@) =~= ev.subrange(j as int + 1, m as int));
            }
            let loc = Locale::from_stream_key(key);
            insert_entry(&mut out, loc, format.clone(), p);
            proof {
                assert(ev.subrange(0, j as int + 1).drop_last() =~= ev.subrange(0, j as int));
            }
            j = j + 1;
        }
        proof {
            assert(ev.subrange(0, m as int) =~= ev);
            assert(rv.subrange(0, k as int + 1).drop_last() =~= rv.subrange(0, k as int));
        }
        k = k + 1;
    }
    proof {
        assert(rv.subrange(0, n as int) =~= rv);
        lemma_regrouped_locales_distinct(rv);
    }
    out
}

/// Whether every group of `g` is filed under a locale in `allowed`.
pub open spec fn locales_within<P>(g: Seq<Group<P>>, allowed: Set<Seq<char>>) -> bool {
    forall|i: int| 0 <= i < g.len() ==> allowed.contains(#[trigger] g[i].0)
}

/// Whether every locale key of `raw` is read as a locale in `allowed`.
pub open spec fn keys_within<P>(raw: Seq<(Seq<char>, Seq<(Seq<char>, P)>)>, allowed: Set<Seq<char>>) -> bool {
    forall|i: int, j: int| 0 <= i < raw.len() && 0 <= j < raw[i].1.len()
        ==> allowed.contains(stream_locale(#[trigger] raw[i].1[j].0))
}

proof fn lemma_insert_within<P>(g: Seq<Group<P>>, loc: Seq<char>, format: Seq<char>, p: P, allowed: Set<Seq<char>>)
    requires
        locales_within(g, allowed),
        allowed.contains(loc),
    ensures
        locales_within(insert_spec(g, loc, format, p), allowed),
    decreases g.len(),
{
    if g.len() > 0 && g[0].0 != loc {
        lemma_insert_within(g.drop_first(), loc, format, p, allowed);
        let r = insert_spec(g, loc, format, p);
        let t = insert_spec(g.drop_first(), loc, format, p);
        assert forall|i: int| 0 <= i < r.len() implies allowed.contains(#[trigger] r[i].0) by {
            if i > 0 {
                assert(r[i] == t[i - 1]);
            }
        }
    }
}

proof fn lemma_file_within<P>(g: Seq<Group<P>>, format: Seq<char>, entries: Seq<(Seq<char>, P)>, allowed: Set<Seq<char>>)
    requires
        locales_within(g, allowed),
        forall|j: int| 0 <= j < entries.len() ==> allowed.contains(stream_locale(#[trigger] entries[j].0)),
    ensures
        locales_within(file_format(g, format, entries), allowed),
    decreases entries.len(),
{
    if entries.len() > 0 {
        let e = entries.drop_last();
        assert forall|j: int| 0 <= j < e.len() implies allowed.contains(stream_locale(#[trigger] e[j].0)) by {
            assert(e[j] == entries[j]);
        }
        lemma_file_within(g, format, e, allowed);
        lemma_insert_within(file_format(g, format, e), stream_locale(entries.last().0), format, entries.last().1, allowed);
    }
}

proof fn lemma_regrouped_within<P>(raw: Seq<(Seq<char>, Seq<(Seq<char>, P)>)>, allowed: Set<Seq<char>>)
    requires
        keys_within(raw, allowed),
    ensures
        locales_within(regrouped(raw), allowed),
    decreases raw.len(),
{
    if raw.len() > 0 {
        let r = raw.drop_last();
        assert forall|i: int, j: int| 0 <= i < r.len() && 0 <= j < r[i].1.len()
            implies allowed.contains(stream_locale(#[trigger] r[i].1[j].0)) by {
            assert(r[i] == raw[i]);
        }
        lemma_regrouped_within(r, allowed);
        let last = raw.last();
        assert forall|j: int| 0 <= j < last.1.len() implies allowed.contains(stream_locale(#[trigger] last.1[j].0)) by {
            assert(raw[raw.len() - 1].1[j] == last.1[j]);
        }
        lemma_file_within(regrouped(r), last.0, last.1, allowed);
    }
}

/// The sentinel key never survives as a locale: a regrouped table has no group
/// filed under `":"`, and when every locale key is the sentinel, every group is
/// filed under the empty locale.
pub proof fn lemma_sentinel_becomes_empty<P>(raw: Seq<(Seq<char>, Seq<(Seq<char>, P)>)>)
    ensures
        forall|i: int| 0 <= i < regrouped(raw).len() ==> (#[trigger] regrouped(raw)[i]).0 != sentinel_key(),
        (forall|i: int, j: int| 0 <= i < raw.len() && 0 <= j < raw[i].1.len() ==> (#[trigger] raw[i].1[j]).0 == sentinel_key())
            ==> forall|i: int| 0 <= i < regrouped(raw).len() ==> (#[trigger] regrouped(raw)[i]).0 == Seq::<char>::empty(),
{
    reveal_strlit(":");
    let not_sentinel = Set::new(|l: Seq<char>| l != sentinel_key());
    assert forall|i: int, j: int| 0 <= i < raw.len() && 0 <= j < raw[i].1.len()
        implies not_sentinel.contains(stream_locale(#[trigger] raw[i].1[j].0)) by {
        assert(Seq::<char>::empty().len() == 0);
    }
    lemma_regrouped_within(raw, not_sentinel);
    if forall|i: int, j: int| 0 <= i < raw.len() && 0 <= j < raw[i].1.len() ==> (#[trigger] raw[i].1[j]).0 == sentinel_key() {
        let empty_only = set![Seq::<char>::empty()];
        assert forall|i: int, j: int| 0 <= i < raw.len() && 0 <= j < raw[i].1.len()
            implies empty_only.contains(stream_locale(#[trigger] raw[i].1[j].0)) by {
            assert(raw[i].1[j].0 == sentinel_key());
        }
        lemma_regrouped_within(raw, empty_only);
    }
}

/// Whether no two groups of `g` share a locale.
pub open spec fn locales_distinct<P>(g: Seq<Group<P>>) -> bool {
    forall|i: int, j: int| 0 <= i < j < g.len() ==> (#[trigger] g[i]).0 != (#[trigger] g[j]).0
}

proof fn lemma_insert_keeps_distinct<P>(g: Seq<Group<P>>, loc: Seq<char>, format: Seq<char>, p: P)
    requires
        locales_distinct(g),
    ensures
        locales_distinct(insert_spec(g, loc, format, p)),
        insert_spec(g, loc, format, p).len() >= 1,
        forall|i: int| 0 <= i < insert_spec(g, loc, format, p).len()
            ==> (#[trigger] insert_spec(g, loc, format, p)[i]).0 == loc
                || exists|j: int| 0 <= j < g.len() && g[j].0 == insert_spec(g, loc, format, p)[i].0,
        forall|j: int| 0 <= j < g.len() ==> exists|i: int| 0 <= i < insert_spec(g, loc, format, p).len()
            && (#[trigger] g[j]).0 == insert_spec(g, loc, format, p)[i].0,
        exists|i: int| 0 <= i < insert_spec(g, loc, format, p).len() && insert_spec(g, loc, format, p)[i].0 == loc,
    decreases g.len(),
{
    let r = insert_spec(g, loc, format, p);
    if g.len() == 0 {
        assert(r[0].0 == loc);
    } else if g[0].0 == loc {
        assert(r[0].0 == loc);
        assert forall|i: int| 0 <= i < r.len() implies (#[trigger] r[i]).0 == loc
            || exists|j: int| 0 <= j < g.len() && g[j].0 == r[i].0 by {
            assert(r[i].0 == g[i].0);
        }
        assert forall|j: int| 0 <= j < g.len() implies exists|i: int| 0 <= i < r.len()
            && (#[trigger] g[j]).0 == r[i].0 by {
            assert(r[j].0 == g[j].0);
        }
        assert forall|i: int, j: int| 0 <= i < j < r.len() implies (#[trigger] r[i]).0 != (#[trigger] r[j]).0 by {
            assert(r[i].0 == g[i].0 && r[j].0 == g[j].0);
        }
    } else {
        let t = g.drop_first();
        assert forall|i: int, j: int| 0 <= i < j < t.len() implies (#[trigger] t[i]).0 != (#[trigger] t[j]).0 by {
            assert(t[i] == g[i + 1] && t[j] == g[j + 1]);
        }
        lemma_insert_keeps_distinct(t, loc, format, p);
        let rt = insert_spec(t, loc, format, p);
        assert(r == seq![g[0]] + rt);
        assert forall|i: int| 0 <= i < r.len() implies (#[trigger] r[i]).0 == loc
            || exists|j: int| 0 <= j < g.len() && g[j].0 == r[i].0 by {
            if i == 0 {
                assert(g[0].0 == r[0].0);
            } else {
                assert(r[i] == rt[i - 1]);
                if rt[i - 1].0 != loc {
                    let j = choose|j: int| 0 <= j < t.len() && t[j].0 == rt[i - 1].0;
                    assert(g[j + 1] == t[j]);
                }
            }
        }
        assert forall|j: int| 0 <= j < g.len() implies exists|i: int| 0 <= i < r.len()
            && (#[trigger] g[j]).0 == r[i].0 by {
            if j == 0 {
                assert(r[0] == g[0]);
            } else {
                assert(t[j - 1] == g[j]);
                let i = choose|i: int| 0 <= i < rt.len() && t[j - 1].0 == rt[i].0;
                assert(r[i + 1] == rt[i]);
            }
        }
        let k = choose|i: int| 0 <= i < rt.len() && rt[i].0 == loc;
        assert(r[k + 1] == rt[k]);
        assert forall|i: int, j: int| 0 <= i < j < r.len() implies (#[trigger] r[i]).0 != (#[trigger] r[j]).0 by {
            if i == 0 {
                assert(r[j] == rt[j - 1]);
                if rt[j - 1].0 == g[0].0 {
                    if rt[j - 1].0 != loc {
                        let m = choose|m: int| 0 <= m < t.len() && t[m].0 == rt[j - 1].0;
                        assert(t[m] == g[m + 1]);
                    }
                }
            } else {
                assert(r[i] == rt[i - 1] && r[j] == rt[j - 1]);
            }
        }
    }
}

proof fn lemma_file_keeps_distinct<P>(g: Seq<Group<P>>, format: Seq<char>, entries: Seq<(Seq<char>, P)>)
    requires
        locales_distinct(g),
    ensures
        locales_distinct(file_format(g, format, entries)),
    decreases entries.len(),
{
    if entries.len() > 0 {
        lemma_file_keeps_distinct(g, format, entries.drop_last());
        lemma_insert_keeps_distinct(file_format(g, format, entries.drop_last()), stream_locale(entries.last().0), format, entries.last().1);
    }
}

/// A regrouped table files each locale once: no two groups share a locale.
pub proof fn lemma_regrouped_locales_distinct<P>(raw: Seq<(Seq<char>, Seq<(Seq<char>, P)>)>)
    ensures
        locales_distinct(regrouped(raw)),
    decreases raw.len(),
{
    if raw.len() > 0 {
        lemma_regrouped_locales_distinct(raw.drop_last());
        lemma_file_keeps_distinct(regrouped(raw.drop_last()), raw.last().0, raw.last().1);
    }
}

/// One way a video stream can be delivered.
#[derive(Clone, Debug, Default)]
pub struct VideoVariant {
    /// The locale whose subtitles are burned into the video; empty for none.
    pub hardsub_locale: Locale,
    /// Where the stream is, usually an HLS or MPEG-DASH manifest.
    pub url: String,
}

/// One way a playback stream can be delivered.
#[derive(Clone, Debug, Default)]
pub struct PlaybackVariant {
    pub hardsub_locale: Locale,
    pub url: String,
    /// The video codec, usually h264.
    pub vcodec: String,
}

/// The delivery formats of a video stream for one hardsub locale.
#[derive(Clone, Debug, Default)]
pub struct VideoVariants {
    pub adaptive_dash: Option<VideoVariant>,
    pub adaptive_hls: Option<VideoVariant>,
    pub download_dash: Option<VideoVariant>,
    pub download_hls: Option<VideoVariant>,
    pub drm_adaptive_dash: Option<VideoVariant>,
    pub drm_adaptive_hls: Option<VideoVariant>,
    pub drm_download_dash: Option<VideoVariant>,
    pub drm_download_hls: Option<VideoVariant>,
    pub drm_multitrack_adaptive_hls_v2: Option<VideoVariant>,
    pub multitrack_adaptive_hls_v2: Option<VideoVariant>,
    pub vo_adaptive_dash: Option<VideoVariant>,
    pub vo_adaptive_hls: Option<VideoVariant>,
    pub vo_drm_adaptive_dash: Option<VideoVariant>,
    pub vo_drm_adaptive_hls: Option<VideoVariant>,
}

/// The delivery formats of a playback stream for one hardsub locale.
#[derive(Clone, Debug, Default)]
pub struct PlaybackVariants {
    pub adaptive_dash: Option<PlaybackVariant>,
    pub adaptive_hls: Option<PlaybackVariant>,
    pub download_hls: Option<PlaybackVariant>,
    pub drm_adaptive_dash: Option<PlaybackVariant>,
    pub drm_adaptive_hls: Option<PlaybackVariant>,
    pub drm_download_hls: Option<PlaybackVariant>,
    pub trailer_dash: Option<PlaybackVariant>,
    pub trailer_hls: Option<PlaybackVariant>,
    pub vo_adaptive_dash: Option<PlaybackVariant>,
    pub vo_adaptive_hls: Option<PlaybackVariant>,
    pub vo_drm_adaptive_dash: Option<PlaybackVariant>,
    pub vo_drm_adaptive_hls: Option<PlaybackVariant>,
}

/// A subtitle track of a stream.
#[derive(Clone, Debug, Default)]
pub struct StreamSubtitle {
    /// The session that the track can be downloaded with, once bound.
    pub executor: Option<Arc<Executor>>,
    pub locale: Locale,
    pub url: String,
    pub format: String,
}

impl Request for StreamSubtitle {
    open spec fn bound_to(&self, executor: Executor) -> bool {
        holds(self.executor, executor)
    }

    fn __set_executor(&mut self, executor: Arc<Executor>) {
        self.executor = Some(executor);
    }
}

/// Whether every subtitle track of `subtitles` holds `executor`.
pub open spec fn subtitles_bound(subtitles: Seq<(Locale, StreamSubtitle)>, executor: Executor) -> bool {
    forall|i: int| 0 <= i < subtitles.len() ==> (#[trigger] subtitles[i]).1.bound_to(executor)
}

fn bind_subtitles(subtitles: &mut Vec<(Locale, StreamSubtitle)>, executor: &Arc<Executor>)
    ensures
        final(subtitles)@.len() == old(subtitles)@.len(),
        forall|i: int| 0 <= i < final(subtitles)@.len() ==> (#[trigger] final(subtitles)@[i]).0 == old(subtitles)@[i].0,
        subtitles_bound(final(subtitles)@, **executor),
{
    let n = subtitles.len();
    let mut i: usize = 0;
    while i < n
        invariant
            n == subtitles@.len(),
            n == old(subtitles)@.len(),
            0 <= i <= n,
            forall|j: int| 0 <= j < n ==> (#[trigger] subtitles@[j]).0 == old(subtitles)@[j].0,
            forall|j: int| 0 <= j < i ==> (#[trigger] subtitles@[j]).1.bound_to(**executor),
        decreases n - i,
    {
        subtitles[i].1.__set_executor(share(executor));
        i = i + 1;
    }
}

/// The video streams of an episode or movie.
#[derive(Clone, Debug, Default)]
pub struct VideoStream {
    pub executor: Option<Arc<Executor>>,
    pub media_id: String,
    /// Audio locale of the stream.
    pub audio_locale: Locale,
    /// The subtitle tracks, by locale.
    pub subtitles: Vec<(Locale, StreamSubtitle)>,
    /// The delivery formats by hardsub locale; the empty locale holds the
    /// variants without burned-in subtitles.
    pub variants: Vec<(Locale, VideoVariants)>,
}

/// The playback streams of an episode or movie.
#[derive(Clone, Debug, Default)]
pub struct PlaybackStream {
    pub executor: Option<Arc<Executor>>,
    pub audio_locale: Locale,
    pub subtitles: Vec<(Locale, StreamSubtitle)>,
    pub variants: Vec<(Locale, PlaybackVariants)>,
}

impl Request for VideoStream {
    open spec fn bound_to(&self, executor: Executor) -> bool {
        holds(self.executor, executor) && subtitles_bound(self.subtitles@, executor)
    }

    /// Binds the context to the stream and to each of its subtitle tracks.
    fn __set_executor(&mut self, executor: Arc<Executor>)
        ensures
            final(self).subtitles@.len() == old(self).subtitles@.len(),
            final(self).variants == old(self).variants,
    {
        bind_subtitles(&mut self.subtitles, &executor);
        self.executor = Some(executor);
    }
}

impl Request for PlaybackStream {
    open spec fn bound_to(&self, executor: Executor) -> bool {
        holds(self.executor, executor) && subtitles_bound(self.subtitles@, executor)
    }

    /// Binds the context to the stream and to each of its subtitle tracks.
    fn __set_executor(&mut self, executor: Arc<Executor>)
        ensures
            final(self).subtitles@.len() == old(self).subtitles@.len(),
            final(self).variants == old(self).variants,
    {
        bind_subtitles(&mut self.subtitles, &executor);
        self.executor = Some(executor);
    }
}

impl VideoStream {
    /// The context bound to this stream, if any.
    pub fn __get_executor(&self) -> (r: Option<Arc<Executor>>)
        ensures
            r == self.executor,
    {
        match &self.executor {
            Some(e) => Some(share(e)),
            None => None,
        }
    }
}

impl PlaybackStream {
    /// The context bound to this stream, if any.
    pub fn __get_executor(&self) -> (r: Option<Arc<Executor>>)
        ensures
            r == self.executor,
    {
        match &self.executor {
            Some(e) => Some(share(e)),
            None => None,
        }
    }
}

} // verus!
