use vstd::prelude::*;
use crate::stream::{lemma_segment_end_bounds, segment_end};

verus! {

/// What an HTTP request path asks for.
#[derive(Debug)]
pub enum HttpRoute {
    /// The HLS playlist of a stream: `/app/stream.m3u8`.
    Playlist { app_name: String, stream_name: String },
    /// An HLS segment: `/app/stream/segment.ts`.
    Segment { app_name: String, stream_name: String, ts_name: String },
    /// The HTTP-FLV feed of a stream: `/app/stream.flv`.
    Flv { app_name: String, stream_name: String },
    /// Nothing that is served.
    NotFound,
}

pub enum RouteModel {
    Playlist { app_name: Seq<char>, stream_name: Seq<char> },
    Segment { app_name: Seq<char>, stream_name: Seq<char>, ts_name: Seq<char> },
    Flv { app_name: Seq<char>, stream_name: Seq<char> },
    NotFound,
}

impl View for HttpRoute {
    type V = RouteModel;

    open spec fn view(&self) -> RouteModel {
        match self {
            HttpRoute::Playlist { app_name, stream_name } => RouteModel::Playlist { app_name: app_name@, stream_name: stream_name@ },
            HttpRoute::Segment { app_name, stream_name, ts_name } => RouteModel::Segment {
                app_name: app_name@,
                stream_name: stream_name@,
                ts_name: ts_name@,
            },
            HttpRoute::Flv { app_name, stream_name } => RouteModel::Flv { app_name: app_name@, stream_name: stream_name@ },
            HttpRoute::NotFound => RouteModel::NotFound,
        }
    }
}

/// The `k`-th `/`-separated segment of `s`, counting from zero.
pub open spec fn nth_segment(s: Seq<char>, k: nat) -> Option<Seq<char>>
    decreases k,
{
    let e = segment_end(s, 0);
    if k == 0 {
        Some(s.take(e))
    } else if e >= s.len() {
        None
    } else {
        nth_segment(s.skip(e + 1), (k - 1) as nat)
    }
}

/// The first position at or after `i` where `pat` occurs in `s`, or -1.
pub open spec fn occurrence_from(s: Seq<char>, pat: Seq<char>, i: int) -> int
    decreases s.len() + 1 - i,
{
    if i < 0 || i + pat.len() > s.len() {
        -1
    } else if s.subrange(i, i + pat.len()) == pat {
        i
    } else {
        occurrence_from(s, pat, i + 1)
    }
}

pub open spec fn ends_with(s: Seq<char>, suffix: Seq<char>) -> bool {
    s.len() >= suffix.len() && s.skip(s.len() - suffix.len()) == suffix
}

/// The part of `path` before the first occurrence of `ext`, when `path` ends with
/// `ext` and that occurrence is not at the start.
pub open spec fn stem(path: Seq<char>, ext: Seq<char>) -> Option<Seq<char>> {
    let i = occurrence_from(path, ext, 0);
    if ends_with(path, ext) && i > 0 {
        Some(path.take(i))
    } else {
        None
    }
}

/// The route of a request path. A path ending in `.m3u8` names a playlist, one
/// ending in `.ts` a segment, one ending in `.flv` a feed; the text before the
/// first occurrence of the extension is split at `/`, and its segments after the
/// leading one name the application, the stream and the segment.
pub open spec fn route_of(path: Seq<char>) -> RouteModel {
    if ends_with(path, ".m3u8"@) {
        match stem(path, ".m3u8"@) {
            Some(l) => match (nth_segment(l, 1), nth_segment(l, 2)) {
                (Some(a), Some(s)) => RouteModel::Playlist { app_name: a, stream_name: s },
                _ => RouteModel::NotFound,
            },
            None => RouteModel::NotFound,
        }
    } else if ends_with(path, ".ts"@) {
        match stem(path, ".ts"@) {
            Some(l) => match (nth_segment(l, 1), nth_segment(l, 2), nth_segment(l, 3)) {
                (Some(a), Some(s), Some(t)) => RouteModel::Segment { app_name: a, stream_name: s, ts_name: t },
                _ => RouteModel::NotFound,
            },
            None => RouteModel::NotFound,
        }
    } else if ends_with(path, ".flv"@) {
        match stem(path, ".flv"@) {
            Some(l) => match (nth_segment(l, 1), nth_segment(l, 2)) {
                (Some(a), Some(s)) => RouteModel::Flv { app_name: a, stream_name: s },
                _ => RouteModel::NotFound,
            },
            None => RouteModel::NotFound,
        }
    } else {
        RouteModel::NotFound
    }
}

proof fn lemma_segment_end_shift(s: Seq<char>, start: int, i: int)
    requires
        0 <= start <= i <= s.len(),
    ensures
        segment_end(s.skip(start), i - start) == segment_end(s, i) - start,
    decreases s.len() - i,
{
    if i < s.len() && s[i] != '/' {
        lemma_segment_end_shift(s, start, i + 1);
    }
}

/// The `k`-th segment of `s[start..]`.
fn segment_at(s: &str, len: usize, start: usize, k: usize) -> (r: Option<String>)
    requires
        len == s@.len(),
        start <= len,
    ensures
        match r {
            Some(x) => nth_segment(s@.skip(start as int), k as nat) == Some(x@),
            None => nth_segment(s@.skip(start as int), k as nat) is None,
        },
    decreases k,
{
    let mut e = start;
    while e < len && s.get_char(e) != '/'
        invariant
            len == s@.len(),
            start <= e <= len,
            segment_end(s@, start as int) == segment_end(s@, e as int),
        decreases len - e,
    {
        e = e + 1;
    }
    proof {
        lemma_segment_end_bounds(s@, e as int);
        lemma_segment_end_shift(s@, start as int, start as int);
    }
    let ghost t = s@.skip(start as int);
    if k == 0 {
        proof {
            assert(t.take(e - start) =~= s@.subrange(start as int, e as int));
        }
        Some(String::from_str(s.substring_char(start, e)))
    } else if e >= len {
        None
    } else {
        proof {
            assert(t.skip(e - start + 1) =~= s@.skip(e as int + 1));
        }
        segment_at(s, len, e + 1, k - 1)
    }
}

fn matches_at(s: &str, i: usize, pat: &str, plen: usize) -> (r: bool)
    requires
        plen == pat@.len(),
        i + plen <= s@.len(),
        s@.len() <= usize::MAX,
    ensures
        r == (s@.subrange(i as int, i + plen) == pat@),
{
    let mut k: usize = 0;
    while k < plen
        invariant
            plen == pat@.len(),
            i + plen <= s@.len(),
            s@.len() <= usize::MAX,
            0 <= k <= plen,
            forall|j: int| 0 <= j < k ==> s@[i + j] == pat@[j],
        decreases plen - k,
    {
        if s.get_char(i + k) != pat.get_char(k) {
            proof {
                assert(s@.subrange(i as int, i + plen)[k as int] != pat@[k as int]);
            }
            return false;
        }
        k = k + 1;
    }
    proof {
        assert(s@.subrange(i as int, i + plen) =~= pat@);
    }
    true
}

/// The text of `path` before the first occurrence of `ext`, when `path` ends with
/// `ext` and that occurrence is not at its start.
fn stem_of(path: &str, len: usize, ext: &str) -> (r: Option<usize>)
    requires
        len == path@.len(),
    ensures
        match r {
            Some(i) => stem(path@, ext@) == Some(path@.take(i as int)) && i <= len,
            None => stem(path@, ext@) is None,
        },
{
    let plen = ext.unicode_len();
    if plen > len {
        return None;
    }
    if !matches_at(path, len - plen, ext, plen) {
        proof {
            assert(path@.skip(len - plen) =~= path@.subrange(len - plen, len as int));
        }
        return None;
    }
    proof {
        assert(path@.skip(len - plen) =~= path@.subrange(len - plen, len as int));
    }
    let mut i: usize = 0;
    while i <= len - plen
        invariant
            len == path@.len(),
            plen == ext@.len(),
            plen <= len,
            ends_with(path@, ext@),
            i <= len - plen + 1,
            forall|j: int| 0 <= j < i ==> #[trigger] path@.subrange(j, j + plen) != ext@,
            occurrence_from(path@, ext@, 0) == occurrence_from(path@, ext@, i as int),
        decreases len - i,
    {
        if matches_at(path, i, ext, plen) {
            if i > 0 {
                return Some(i);
            } else {
                return None;
            }
        }
        i = i + 1;
    }
    proof {
        assert(path@.subrange(len - plen, len as int) == ext@);
        assert(false);
    }
    None
}

/// Works out what a request path asks for.
pub fn route(path: &str) -> (r: HttpRoute)
    ensures
        r@ == route_of(path@),
{
    let len = path.unicode_len();
    let m3u8 = ".m3u8";
    let ts = ".ts";
    let flv = ".flv";
    proof {
        assert(path@.skip(0) =~= path@);
    }
    if ends_with_str(path, len, m3u8) {
        match stem_of(path, len, m3u8) {
            Some(i) => {
                let l = path.substring_char(0, i);
                let ll = l.unicode_len();
                proof { assert(l@.skip(0) =~= l@); }
                match (segment_at(l, ll, 0, 1), segment_at(l, ll, 0, 2)) {
                    (Some(a), Some(s)) => HttpRoute::Playlist { app_name: a, stream_name: s },
                    _ => HttpRoute::NotFound,
                }
            },
            None => HttpRoute::NotFound,
        }
    } else if ends_with_str(path, len, ts) {
        match stem_of(path, len, ts) {
            Some(i) => {
                let l = path.substring_char(0, i);
                let ll = l.unicode_len();
                proof { assert(l@.skip(0) =~= l@); }
                match (segment_at(l, ll, 0, 1), segment_at(l, ll, 0, 2), segment_at(l, ll, 0, 3)) {
                    (Some(a), Some(s), Some(t)) => HttpRoute::Segment { app_name: a, stream_name: s, ts_name: t },
                    _ => HttpRoute::NotFound,
                }
            },
            None => HttpRoute::NotFound,
        }
    } else if ends_with_str(path, len, flv) {
        match stem_of(path, len, flv) {
            Some(i) => {
                let l = path.substring_char(0, i);
                let ll = l.unicode_len();
                proof { assert(l@.skip(0) =~= l@); }
                match (segment_at(l, ll, 0, 1), segment_at(l, ll, 0, 2)) {
                    (Some(a), Some(s)) => HttpRoute::Flv { app_name: a, stream_name: s },
                    _ => HttpRoute::NotFound,
                }
            },
            None => HttpRoute::NotFound,
        }
    } else {
        HttpRoute::NotFound
    }
}

fn ends_with_str(s: &str, len: usize, suffix: &str) -> (r: bool)
    requires
        len == s@.len(),
    ensures
        r == ends_with(s@, suffix@),
{
    let plen = suffix.unicode_len();
    if plen > len {
        return false;
    }
    proof {
        assert(s@.skip(len - plen) =~= s@.subrange(len - plen, len as int));
    }
    matches_at(s, len - plen, suffix, plen)
}


/// The file that serves a route, relative to the working directory: the
/// playlist `./app/stream/index.m3u8`, the segment `./app/stream/segment.ts`, or
/// the empty path (nothing on disk) for the other routes.
pub open spec fn file_of(r: RouteModel) -> Seq<char> {
    match r {
        RouteModel::Playlist { app_name, stream_name } => "./"@ + app_name + "/"@ + stream_name + "/index.m3u8"@,
        RouteModel::Segment { app_name, stream_name, ts_name } => "./"@ + app_name + "/"@ + stream_name + "/"@ + ts_name
            + ".ts"@,
        _ => Seq::empty(),
    }
}

impl HttpRoute {
    /// The file on disk that serves this route.
    pub fn file_path(&self) -> (r: String)
        ensures
            r@ == file_of(self@),
    {
        match self {
            HttpRoute::Playlist { app_name, stream_name } => {
                let mut r = String::from_str("./");
                r.append(app_name.as_str());
                r.append("/");
                r.append(stream_name.as_str());
                r.append("/index.m3u8");
                r
            },
            HttpRoute::Segment { app_name, stream_name, ts_name } => {
                let mut r = String::from_str("./");
                r.append(app_name.as_str());
                r.append("/");
                r.append(stream_name.as_str());
                r.append("/");
                r.append(ts_name.as_str());
                r.append(".ts");
                r
            },
            _ => String::new(),
        }
    }
}

} // verus!
